//! The wire message codec: a tagged-union envelope `{"type": tag, "data":
//! payload}` decoded in two phases. The kind tag is decoded first; the
//! payload is then decoded under the schema that the kind selects. An
//! unknown kind or a malformed payload degrades to a well-formed `Error`
//! event — a single corrupt message never stalls the session.
//!
//! Enumerations travel as explicit string tags, so wire compatibility does
//! not hang on declaration order.

use vstd::prelude::*;

use crate::channel::ChannelId;
use crate::config::{
    AiModel, BoardSocket, ColorCameraConfig, ColorCameraResolution, DepthConfig,
    DepthMedianFilter, Device, DeviceConfig, Error, ErrorAction, MonoCameraConfig,
    MonoCameraResolution, PointcloudConfig,
};
use crate::json::{
    json_as_array, json_as_bool, json_as_i64, json_as_str, json_as_u64, json_get, json_is_null,
    json_map_insert, json_new_map, json_null, json_of_array, json_of_bool, json_of_i64,
    json_of_map, json_of_str, json_of_u64, json_parse, json_parses, json_to_text,
};
use crate::message::{spec_default_message, msg_wf, BackWsMessage, WsMessageData, WsMessageType};

verus! {

/// Whether two string slices hold the same characters.
pub fn str_eq(a: &str, b: &str) -> (r: bool)
    ensures
        r == (a@ == b@),
{
    let sa: String = a.to_owned();
    let sb: String = b.to_owned();
    sa == sb
}

// ---------------------------------------------------------------------------
// Envelope kind tags

pub open spec fn spec_kind_tag(k: WsMessageType) -> Seq<char> {
    match k {
        WsMessageType::Subscriptions => "Subscriptions"@,
        WsMessageType::Devices => "Devices"@,
        WsMessageType::Device => "Device"@,
        WsMessageType::Pipeline => "Pipeline"@,
        WsMessageType::Error => "Error"@,
    }
}

pub open spec fn spec_kind_from_tag(t: Seq<char>) -> Option<WsMessageType> {
    if t == "Subscriptions"@ {
        Some(WsMessageType::Subscriptions)
    } else if t == "Devices"@ {
        Some(WsMessageType::Devices)
    } else if t == "Device"@ {
        Some(WsMessageType::Device)
    } else if t == "Pipeline"@ {
        Some(WsMessageType::Pipeline)
    } else if t == "Error"@ {
        Some(WsMessageType::Error)
    } else {
        None
    }
}

pub fn kind_tag(k: WsMessageType) -> (r: &'static str)
    ensures
        r@ == spec_kind_tag(k),
{
    match k {
        WsMessageType::Subscriptions => "Subscriptions",
        WsMessageType::Devices => "Devices",
        WsMessageType::Device => "Device",
        WsMessageType::Pipeline => "Pipeline",
        WsMessageType::Error => "Error",
    }
}

pub fn kind_from_tag(tag: &str) -> (r: Option<WsMessageType>)
    ensures
        r == spec_kind_from_tag(tag@),
{
    if str_eq(tag, "Subscriptions") {
        Some(WsMessageType::Subscriptions)
    } else if str_eq(tag, "Devices") {
        Some(WsMessageType::Devices)
    } else if str_eq(tag, "Device") {
        Some(WsMessageType::Device)
    } else if str_eq(tag, "Pipeline") {
        Some(WsMessageType::Pipeline)
    } else if str_eq(tag, "Error") {
        Some(WsMessageType::Error)
    } else {
        None
    }
}

/// Every kind's tag decodes back to that kind.
pub proof fn lemma_kind_tag_round_trip(k: WsMessageType)
    ensures
        spec_kind_from_tag(spec_kind_tag(k)) == Some(k),
{
    reveal_strlit("Subscriptions");
    reveal_strlit("Devices");
    reveal_strlit("Device");
    reveal_strlit("Pipeline");
    reveal_strlit("Error");
    assert("Subscriptions"@.len() == 13);
    assert("Devices"@.len() == 7);
    assert("Device"@.len() == 6);
    assert("Pipeline"@.len() == 8);
    assert("Error"@.len() == 5);
}

// ---------------------------------------------------------------------------
// Channel tags

pub open spec fn spec_channel_tag(c: ChannelId) -> Seq<char> {
    match c {
        ChannelId::ColorImage => "ColorImage"@,
        ChannelId::LeftMono => "LeftMono"@,
        ChannelId::RightMono => "RightMono"@,
        ChannelId::DepthImage => "DepthImage"@,
        ChannelId::PointCloud => "PointCloud"@,
        ChannelId::PinholeCamera => "PinholeCamera"@,
    }
}

pub open spec fn spec_channel_from_tag(t: Seq<char>) -> Option<ChannelId> {
    if t == "ColorImage"@ {
        Some(ChannelId::ColorImage)
    } else if t == "LeftMono"@ {
        Some(ChannelId::LeftMono)
    } else if t == "RightMono"@ {
        Some(ChannelId::RightMono)
    } else if t == "DepthImage"@ {
        Some(ChannelId::DepthImage)
    } else if t == "PointCloud"@ {
        Some(ChannelId::PointCloud)
    } else if t == "PinholeCamera"@ {
        Some(ChannelId::PinholeCamera)
    } else {
        None
    }
}

pub fn channel_tag(c: ChannelId) -> (r: &'static str)
    ensures
        r@ == spec_channel_tag(c),
{
    match c {
        ChannelId::ColorImage => "ColorImage",
        ChannelId::LeftMono => "LeftMono",
        ChannelId::RightMono => "RightMono",
        ChannelId::DepthImage => "DepthImage",
        ChannelId::PointCloud => "PointCloud",
        ChannelId::PinholeCamera => "PinholeCamera",
    }
}

pub fn channel_from_tag(tag: &str) -> (r: Option<ChannelId>)
    ensures
        r == spec_channel_from_tag(tag@),
{
    if str_eq(tag, "ColorImage") {
        Some(ChannelId::ColorImage)
    } else if str_eq(tag, "LeftMono") {
        Some(ChannelId::LeftMono)
    } else if str_eq(tag, "RightMono") {
        Some(ChannelId::RightMono)
    } else if str_eq(tag, "DepthImage") {
        Some(ChannelId::DepthImage)
    } else if str_eq(tag, "PointCloud") {
        Some(ChannelId::PointCloud)
    } else if str_eq(tag, "PinholeCamera") {
        Some(ChannelId::PinholeCamera)
    } else {
        None
    }
}

/// Every channel's tag decodes back to that channel.
pub proof fn lemma_channel_tag_round_trip(c: ChannelId)
    ensures
        spec_channel_from_tag(spec_channel_tag(c)) == Some(c),
{
    reveal_strlit("ColorImage");
    reveal_strlit("LeftMono");
    reveal_strlit("RightMono");
    reveal_strlit("DepthImage");
    reveal_strlit("PointCloud");
    reveal_strlit("PinholeCamera");
    assert("ColorImage"@.len() == 10);
    assert("LeftMono"@.len() == 8);
    assert("RightMono"@.len() == 9);
    assert("DepthImage"@.len() == 10);
    assert("PointCloud"@.len() == 10);
    assert("PinholeCamera"@.len() == 13);
    assert("DepthImage"@[0] == 'D' && "ColorImage"@[0] == 'C' && "PointCloud"@[0] == 'P');
}

// ---------------------------------------------------------------------------
// Configuration field tags

pub open spec fn spec_color_resolution_tag(r: ColorCameraResolution) -> Seq<char> {
    match r {
        ColorCameraResolution::THE_1080_P => "THE_1080_P"@,
        ColorCameraResolution::THE_4_K => "THE_4_K"@,
    }
}

pub fn color_resolution_tag(r: ColorCameraResolution) -> (t: &'static str)
    ensures
        t@ == spec_color_resolution_tag(r),
{
    match r {
        ColorCameraResolution::THE_1080_P => "THE_1080_P",
        ColorCameraResolution::THE_4_K => "THE_4_K",
    }
}

pub open spec fn spec_color_resolution_from_tag(t: Seq<char>) -> Option<ColorCameraResolution> {
    if t == "THE_1080_P"@ {
        Some(ColorCameraResolution::THE_1080_P)
    } else if t == "THE_4_K"@ {
        Some(ColorCameraResolution::THE_4_K)
    } else {
        None
    }
}

pub fn color_resolution_from_tag(tag: &str) -> (r: Option<ColorCameraResolution>)
    ensures
        r == spec_color_resolution_from_tag(tag@),
{
    if str_eq(tag, "THE_1080_P") {
        Some(ColorCameraResolution::THE_1080_P)
    } else if str_eq(tag, "THE_4_K") {
        Some(ColorCameraResolution::THE_4_K)
    } else {
        None
    }
}

pub open spec fn spec_mono_resolution_tag(r: MonoCameraResolution) -> Seq<char> {
    match r {
        MonoCameraResolution::THE_400_P => "THE_400_P"@,
    }
}

pub fn mono_resolution_tag(r: MonoCameraResolution) -> (t: &'static str)
    ensures
        t@ == spec_mono_resolution_tag(r),
{
    match r {
        MonoCameraResolution::THE_400_P => "THE_400_P",
    }
}

pub open spec fn spec_mono_resolution_from_tag(t: Seq<char>) -> Option<MonoCameraResolution> {
    if t == "THE_400_P"@ {
        Some(MonoCameraResolution::THE_400_P)
    } else {
        None
    }
}

pub fn mono_resolution_from_tag(tag: &str) -> (r: Option<MonoCameraResolution>)
    ensures
        r == spec_mono_resolution_from_tag(tag@),
{
    if str_eq(tag, "THE_400_P") {
        Some(MonoCameraResolution::THE_400_P)
    } else {
        None
    }
}

pub open spec fn spec_board_socket_tag(s: BoardSocket) -> Seq<char> {
    match s {
        BoardSocket::AUTO => "AUTO"@,
        BoardSocket::RGB => "RGB"@,
        BoardSocket::LEFT => "LEFT"@,
        BoardSocket::RIGHT => "RIGHT"@,
        BoardSocket::CENTER => "CENTER"@,
        BoardSocket::CAM_A => "CAM_A"@,
        BoardSocket::CAM_B => "CAM_B"@,
        BoardSocket::CAM_C => "CAM_C"@,
        BoardSocket::CAM_D => "CAM_D"@,
        BoardSocket::CAM_E => "CAM_E"@,
        BoardSocket::CAM_F => "CAM_F"@,
        BoardSocket::CAM_G => "CAM_G"@,
        BoardSocket::CAM_H => "CAM_H"@,
    }
}

pub fn board_socket_tag(s: BoardSocket) -> (t: &'static str)
    ensures
        t@ == spec_board_socket_tag(s),
{
    match s {
        BoardSocket::AUTO => "AUTO",
        BoardSocket::RGB => "RGB",
        BoardSocket::LEFT => "LEFT",
        BoardSocket::RIGHT => "RIGHT",
        BoardSocket::CENTER => "CENTER",
        BoardSocket::CAM_A => "CAM_A",
        BoardSocket::CAM_B => "CAM_B",
        BoardSocket::CAM_C => "CAM_C",
        BoardSocket::CAM_D => "CAM_D",
        BoardSocket::CAM_E => "CAM_E",
        BoardSocket::CAM_F => "CAM_F",
        BoardSocket::CAM_G => "CAM_G",
        BoardSocket::CAM_H => "CAM_H",
    }
}

pub open spec fn spec_board_socket_from_tag(t: Seq<char>) -> Option<BoardSocket> {
    if t == "AUTO"@ {
        Some(BoardSocket::AUTO)
    } else if t == "RGB"@ {
        Some(BoardSocket::RGB)
    } else if t == "LEFT"@ {
        Some(BoardSocket::LEFT)
    } else if t == "RIGHT"@ {
        Some(BoardSocket::RIGHT)
    } else if t == "CENTER"@ {
        Some(BoardSocket::CENTER)
    } else if t == "CAM_A"@ {
        Some(BoardSocket::CAM_A)
    } else if t == "CAM_B"@ {
        Some(BoardSocket::CAM_B)
    } else if t == "CAM_C"@ {
        Some(BoardSocket::CAM_C)
    } else if t == "CAM_D"@ {
        Some(BoardSocket::CAM_D)
    } else if t == "CAM_E"@ {
        Some(BoardSocket::CAM_E)
    } else if t == "CAM_F"@ {
        Some(BoardSocket::CAM_F)
    } else if t == "CAM_G"@ {
        Some(BoardSocket::CAM_G)
    } else if t == "CAM_H"@ {
        Some(BoardSocket::CAM_H)
    } else {
        None
    }
}

pub fn board_socket_from_tag(tag: &str) -> (r: Option<BoardSocket>)
    ensures
        r == spec_board_socket_from_tag(tag@),
{
    if str_eq(tag, "AUTO") {
        Some(BoardSocket::AUTO)
    } else if str_eq(tag, "RGB") {
        Some(BoardSocket::RGB)
    } else if str_eq(tag, "LEFT") {
        Some(BoardSocket::LEFT)
    } else if str_eq(tag, "RIGHT") {
        Some(BoardSocket::RIGHT)
    } else if str_eq(tag, "CENTER") {
        Some(BoardSocket::CENTER)
    } else if str_eq(tag, "CAM_A") {
        Some(BoardSocket::CAM_A)
    } else if str_eq(tag, "CAM_B") {
        Some(BoardSocket::CAM_B)
    } else if str_eq(tag, "CAM_C") {
        Some(BoardSocket::CAM_C)
    } else if str_eq(tag, "CAM_D") {
        Some(BoardSocket::CAM_D)
    } else if str_eq(tag, "CAM_E") {
        Some(BoardSocket::CAM_E)
    } else if str_eq(tag, "CAM_F") {
        Some(BoardSocket::CAM_F)
    } else if str_eq(tag, "CAM_G") {
        Some(BoardSocket::CAM_G)
    } else if str_eq(tag, "CAM_H") {
        Some(BoardSocket::CAM_H)
    } else {
        None
    }
}

pub open spec fn spec_median_filter_tag(m: DepthMedianFilter) -> Seq<char> {
    match m {
        DepthMedianFilter::MEDIAN_OFF => "MEDIAN_OFF"@,
        DepthMedianFilter::KERNEL_3x3 => "KERNEL_3x3"@,
        DepthMedianFilter::KERNEL_5x5 => "KERNEL_5x5"@,
        DepthMedianFilter::KERNEL_7x7 => "KERNEL_7x7"@,
    }
}

pub fn median_filter_tag(m: DepthMedianFilter) -> (t: &'static str)
    ensures
        t@ == spec_median_filter_tag(m),
{
    match m {
        DepthMedianFilter::MEDIAN_OFF => "MEDIAN_OFF",
        DepthMedianFilter::KERNEL_3x3 => "KERNEL_3x3",
        DepthMedianFilter::KERNEL_5x5 => "KERNEL_5x5",
        DepthMedianFilter::KERNEL_7x7 => "KERNEL_7x7",
    }
}

pub open spec fn spec_median_filter_from_tag(t: Seq<char>) -> Option<DepthMedianFilter> {
    if t == "MEDIAN_OFF"@ {
        Some(DepthMedianFilter::MEDIAN_OFF)
    } else if t == "KERNEL_3x3"@ {
        Some(DepthMedianFilter::KERNEL_3x3)
    } else if t == "KERNEL_5x5"@ {
        Some(DepthMedianFilter::KERNEL_5x5)
    } else if t == "KERNEL_7x7"@ {
        Some(DepthMedianFilter::KERNEL_7x7)
    } else {
        None
    }
}

pub fn median_filter_from_tag(tag: &str) -> (r: Option<DepthMedianFilter>)
    ensures
        r == spec_median_filter_from_tag(tag@),
{
    if str_eq(tag, "MEDIAN_OFF") {
        Some(DepthMedianFilter::MEDIAN_OFF)
    } else if str_eq(tag, "KERNEL_3x3") {
        Some(DepthMedianFilter::KERNEL_3x3)
    } else if str_eq(tag, "KERNEL_5x5") {
        Some(DepthMedianFilter::KERNEL_5x5)
    } else if str_eq(tag, "KERNEL_7x7") {
        Some(DepthMedianFilter::KERNEL_7x7)
    } else {
        None
    }
}

pub open spec fn spec_error_action_tag(a: ErrorAction) -> Seq<char> {
    match a {
        ErrorAction::NoAction => "None"@,
        ErrorAction::FullReset => "FullReset"@,
    }
}

pub fn error_action_tag(a: ErrorAction) -> (t: &'static str)
    ensures
        t@ == spec_error_action_tag(a),
{
    match a {
        ErrorAction::NoAction => "None",
        ErrorAction::FullReset => "FullReset",
    }
}

pub open spec fn spec_error_action_from_tag(t: Seq<char>) -> Option<ErrorAction> {
    if t == "None"@ {
        Some(ErrorAction::NoAction)
    } else if t == "FullReset"@ {
        Some(ErrorAction::FullReset)
    } else {
        None
    }
}

pub fn error_action_from_tag(tag: &str) -> (r: Option<ErrorAction>)
    ensures
        r == spec_error_action_from_tag(tag@),
{
    if str_eq(tag, "None") {
        Some(ErrorAction::NoAction)
    } else if str_eq(tag, "FullReset") {
        Some(ErrorAction::FullReset)
    } else {
        None
    }
}

// ---------------------------------------------------------------------------
// Payload decoding

/// Channel list payload. Unknown channel tags are inert and skipped; a
/// non-string element makes the payload malformed.
fn decode_subscriptions(data: &serde_json::Value) -> Option<Vec<ChannelId>> {
    let arr = match json_as_array(data) {
        Some(a) => a,
        None => {
            return None;
        },
    };
    let mut out: Vec<ChannelId> = Vec::new();
    let mut i: usize = 0;
    while i < arr.len()
        decreases arr@.len() - i,
    {
        let tag = match json_as_str(&arr[i]) {
            Some(t) => t,
            None => {
                return None;
            },
        };
        match channel_from_tag(tag) {
            Some(c) => out.push(c),
            None => (),
        }
        i = i + 1;
    }
    Some(out)
}

/// Device catalog payload: a list of integer identifiers.
fn decode_devices(data: &serde_json::Value) -> Option<Vec<i64>> {
    let arr = match json_as_array(data) {
        Some(a) => a,
        None => {
            return None;
        },
    };
    let mut out: Vec<i64> = Vec::new();
    let mut i: usize = 0;
    while i < arr.len()
        decreases arr@.len() - i,
    {
        match json_as_i64(&arr[i]) {
            Some(id) => out.push(id),
            None => {
                return None;
            },
        }
        i = i + 1;
    }
    Some(out)
}

fn decode_device(data: &serde_json::Value) -> Option<Device> {
    let id_v = match json_get(data, "id") {
        Some(v) => v,
        None => {
            return None;
        },
    };
    match json_as_i64(id_v) {
        Some(id) => Some(Device { id }),
        None => None,
    }
}

/// Error payload; anything malformed falls back to the default error, as a
/// decoder that must itself never fail.
fn decode_error(data: &serde_json::Value) -> Error {
    let message = match json_get(data, "message") {
        Some(v) => match json_as_str(v) {
            Some(s) => s.to_owned(),
            None => {
                return Error::default();
            },
        },
        None => {
            return Error::default();
        },
    };
    let action = match json_get(data, "action") {
        Some(v) => match json_as_str(v) {
            Some(tag) => match error_action_from_tag(tag) {
                Some(a) => a,
                None => {
                    return Error::default();
                },
            },
            None => {
                return Error::default();
            },
        },
        None => {
            return Error::default();
        },
    };
    Error { action, message }
}

fn decode_fps(v: &serde_json::Value) -> Option<u8> {
    match json_as_u64(v) {
        Some(f) => if f <= 255 {
            Some(f as u8)
        } else {
            None
        },
        None => None,
    }
}

fn decode_color_camera(data: &serde_json::Value) -> Option<ColorCameraConfig> {
    let fps = match json_get(data, "fps") {
        Some(v) => match decode_fps(v) {
            Some(f) => f,
            None => {
                return None;
            },
        },
        None => {
            return None;
        },
    };
    let resolution = match json_get(data, "resolution") {
        Some(v) => match json_as_str(v) {
            Some(tag) => match color_resolution_from_tag(tag) {
                Some(r) => r,
                None => {
                    return None;
                },
            },
            None => {
                return None;
            },
        },
        None => {
            return None;
        },
    };
    Some(ColorCameraConfig { fps, resolution })
}

fn decode_mono_camera(data: &serde_json::Value) -> Option<MonoCameraConfig> {
    let fps = match json_get(data, "fps") {
        Some(v) => match decode_fps(v) {
            Some(f) => f,
            None => {
                return None;
            },
        },
        None => {
            return None;
        },
    };
    let resolution = match json_get(data, "resolution") {
        Some(v) => match json_as_str(v) {
            Some(tag) => match mono_resolution_from_tag(tag) {
                Some(r) => r,
                None => {
                    return None;
                },
            },
            None => {
                return None;
            },
        },
        None => {
            return None;
        },
    };
    let board_socket = match json_get(data, "board_socket") {
        Some(v) => match json_as_str(v) {
            Some(tag) => match board_socket_from_tag(tag) {
                Some(s) => s,
                None => {
                    return None;
                },
            },
            None => {
                return None;
            },
        },
        None => {
            return None;
        },
    };
    Some(MonoCameraConfig { fps, resolution, board_socket })
}

fn decode_depth(data: &serde_json::Value) -> Option<DepthConfig> {
    let median = match json_get(data, "median") {
        Some(v) => match json_as_str(v) {
            Some(tag) => match median_filter_from_tag(tag) {
                Some(m) => m,
                None => {
                    return None;
                },
            },
            None => {
                return None;
            },
        },
        None => {
            return None;
        },
    };
    let enabled = match json_get(data, "pointcloud") {
        Some(v) => match json_get(v, "enabled") {
            Some(b) => match json_as_bool(b) {
                Some(e) => e,
                None => {
                    return None;
                },
            },
            None => {
                return None;
            },
        },
        None => {
            return None;
        },
    };
    Some(DepthConfig { median, pointcloud: PointcloudConfig { enabled } })
}

fn decode_ai_model(data: &serde_json::Value) -> Option<AiModel> {
    let path = match json_get(data, "path") {
        Some(v) => match json_as_str(v) {
            Some(s) => s.to_owned(),
            None => {
                return None;
            },
        },
        None => {
            return None;
        },
    };
    let display_name = match json_get(data, "display_name") {
        Some(v) => match json_as_str(v) {
            Some(s) => s.to_owned(),
            None => {
                return None;
            },
        },
        None => {
            return None;
        },
    };
    Some(AiModel { path, display_name })
}

/// Pipeline payload. An absent `depth_enabled` means enabled; an absent
/// `depth` stage falls back to the default stage, while an explicit `null`
/// means no stage at all.
fn decode_config(data: &serde_json::Value) -> Option<DeviceConfig> {
    let color_camera = match json_get(data, "color_camera") {
        Some(v) => match decode_color_camera(v) {
            Some(c) => c,
            None => {
                return None;
            },
        },
        None => {
            return None;
        },
    };
    let left_camera = match json_get(data, "left_camera") {
        Some(v) => match decode_mono_camera(v) {
            Some(c) => c,
            None => {
                return None;
            },
        },
        None => {
            return None;
        },
    };
    let right_camera = match json_get(data, "right_camera") {
        Some(v) => match decode_mono_camera(v) {
            Some(c) => c,
            None => {
                return None;
            },
        },
        None => {
            return None;
        },
    };
    let depth_enabled = match json_get(data, "depth_enabled") {
        Some(v) => match json_as_bool(v) {
            Some(b) => b,
            None => {
                return None;
            },
        },
        None => crate::config::bool_true(),
    };
    let depth = match json_get(data, "depth") {
        Some(v) => if json_is_null(v) {
            None
        } else {
            match decode_depth(v) {
                Some(d) => Some(d),
                None => {
                    return None;
                },
            }
        },
        None => DepthConfig::default_as_option(),
    };
    let ai_model = match json_get(data, "ai_model") {
        Some(v) => match decode_ai_model(v) {
            Some(m) => m,
            None => {
                return None;
            },
        },
        None => {
            return None;
        },
    };
    Some(DeviceConfig { color_camera, left_camera, right_camera, depth_enabled, depth, ai_model })
}

/// Phase two: decode the payload under the schema the kind selects. A
/// malformed payload yields the default `Error` envelope instead of the
/// kind's own.
pub fn decode_data(kind: WsMessageType, data: &serde_json::Value) -> (r: BackWsMessage)
    ensures
        msg_wf(r@),
        r@.kind == kind || r@ == spec_default_message(),
{
    match kind {
        WsMessageType::Subscriptions => match decode_subscriptions(data) {
            Some(s) => BackWsMessage { kind, data: WsMessageData::Subscriptions(s) },
            None => BackWsMessage::default(),
        },
        WsMessageType::Devices => match decode_devices(data) {
            Some(d) => BackWsMessage { kind, data: WsMessageData::Devices(d) },
            None => BackWsMessage::default(),
        },
        WsMessageType::Device => match decode_device(data) {
            Some(d) => BackWsMessage { kind, data: WsMessageData::Device(d) },
            None => BackWsMessage::default(),
        },
        WsMessageType::Pipeline => match decode_config(data) {
            Some(c) => BackWsMessage { kind, data: WsMessageData::Pipeline(c) },
            None => BackWsMessage::default(),
        },
        WsMessageType::Error => BackWsMessage {
            kind,
            data: WsMessageData::Error(decode_error(data)),
        },
    }
}

/// Decodes one inbound text frame. `None` exactly when the frame is not a
/// JSON document at all; within a document, an unreadable envelope or
/// payload degrades to a well-formed `Error` event, so every document
/// yields an event.
pub fn decode_message(text: &str) -> (r: Option<BackWsMessage>)
    ensures
        (r is Some) <==> json_parses(text@),
        match r {
            Some(m) => msg_wf(m@),
            None => true,
        },
{
    let v = match json_parse(text) {
        Some(v) => v,
        None => {
            return None;
        },
    };
    let kind = match json_get(&v, "type") {
        Some(kv) => match json_as_str(kv) {
            Some(tag) => kind_from_tag(tag),
            None => None,
        },
        None => None,
    };
    let kind = match kind {
        Some(k) => k,
        None => {
            return Some(BackWsMessage::default());
        },
    };
    match json_get(&v, "data") {
        Some(data) => Some(decode_data(kind, data)),
        None => Some(BackWsMessage::default()),
    }
}

// ---------------------------------------------------------------------------
// Payload encoding

fn encode_subscriptions(subs: &Vec<ChannelId>) -> serde_json::Value {
    let mut items: Vec<serde_json::Value> = Vec::new();
    let mut i: usize = 0;
    while i < subs.len()
        decreases subs@.len() - i,
    {
        items.push(json_of_str(channel_tag(subs[i])));
        i = i + 1;
    }
    json_of_array(items)
}

fn encode_devices(ids: &Vec<i64>) -> serde_json::Value {
    let mut items: Vec<serde_json::Value> = Vec::new();
    let mut i: usize = 0;
    while i < ids.len()
        decreases ids@.len() - i,
    {
        items.push(json_of_i64(ids[i]));
        i = i + 1;
    }
    json_of_array(items)
}

fn encode_device(d: &Device) -> serde_json::Value {
    let mut obj = json_new_map();
    json_map_insert(&mut obj, "id", json_of_i64(d.id));
    json_of_map(obj)
}

fn encode_error(e: &Error) -> serde_json::Value {
    let mut obj = json_new_map();
    json_map_insert(&mut obj, "message", json_of_str(e.message.as_str()));
    json_map_insert(&mut obj, "action", json_of_str(error_action_tag(e.action)));
    json_of_map(obj)
}

fn encode_color_camera(c: &ColorCameraConfig) -> serde_json::Value {
    let mut obj = json_new_map();
    json_map_insert(&mut obj, "fps", json_of_u64(c.fps as u64));
    json_map_insert(&mut obj, "resolution", json_of_str(color_resolution_tag(c.resolution)));
    json_of_map(obj)
}

fn encode_mono_camera(c: &MonoCameraConfig) -> serde_json::Value {
    let mut obj = json_new_map();
    json_map_insert(&mut obj, "fps", json_of_u64(c.fps as u64));
    json_map_insert(&mut obj, "resolution", json_of_str(mono_resolution_tag(c.resolution)));
    json_map_insert(&mut obj, "board_socket", json_of_str(board_socket_tag(c.board_socket)));
    json_of_map(obj)
}

fn encode_depth(d: &DepthConfig) -> serde_json::Value {
    let mut pc = json_new_map();
    json_map_insert(&mut pc, "enabled", json_of_bool(d.pointcloud.enabled));
    let mut obj = json_new_map();
    json_map_insert(&mut obj, "median", json_of_str(median_filter_tag(d.median)));
    json_map_insert(&mut obj, "pointcloud", json_of_map(pc));
    json_of_map(obj)
}

fn encode_ai_model(m: &AiModel) -> serde_json::Value {
    let mut obj = json_new_map();
    json_map_insert(&mut obj, "path", json_of_str(m.path.as_str()));
    json_map_insert(&mut obj, "display_name", json_of_str(m.display_name.as_str()));
    json_of_map(obj)
}

fn encode_config(c: &DeviceConfig) -> serde_json::Value {
    let mut obj = json_new_map();
    json_map_insert(&mut obj, "color_camera", encode_color_camera(&c.color_camera));
    json_map_insert(&mut obj, "left_camera", encode_mono_camera(&c.left_camera));
    json_map_insert(&mut obj, "right_camera", encode_mono_camera(&c.right_camera));
    json_map_insert(&mut obj, "depth_enabled", json_of_bool(c.depth_enabled));
    let depth_v = match &c.depth {
        Some(d) => encode_depth(d),
        None => json_null(),
    };
    json_map_insert(&mut obj, "depth", depth_v);
    json_map_insert(&mut obj, "ai_model", encode_ai_model(&c.ai_model));
    json_of_map(obj)
}

fn encode_data(d: &WsMessageData) -> serde_json::Value {
    match d {
        WsMessageData::Subscriptions(subs) => encode_subscriptions(subs),
        WsMessageData::Devices(ids) => encode_devices(ids),
        WsMessageData::Device(dev) => encode_device(dev),
        WsMessageData::Pipeline(c) => encode_config(c),
        WsMessageData::Error(e) => encode_error(e),
    }
}

/// Encodes one envelope as a JSON text frame; serialization of the built
/// document cannot fail.
pub fn encode_message(m: &BackWsMessage) -> (r: Option<String>)
    ensures
        r is Some,
{
    let mut obj = json_new_map();
    json_map_insert(&mut obj, "type", json_of_str(kind_tag(m.kind)));
    json_map_insert(&mut obj, "data", encode_data(&m.data));
    json_to_text(&json_of_map(obj))
}

} // verus!
