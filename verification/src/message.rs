//! The duplex wire envelope: a tagged union whose kind is decoded before its
//! payload. The same envelope shape travels in both directions; inbound
//! traffic adds the `Error` kind.

use vstd::prelude::*;

use crate::channel::ChannelId;
use crate::config::{Device, DeviceConfig, DeviceConfigView, DeviceId, Error, ErrorView};

verus! {

/// Discriminator of the wire envelope, decoded before the payload.
#[derive(Clone, Copy, PartialEq, Eq, Structural, Debug)]
pub enum WsMessageType {
    Subscriptions,
    Devices,
    Device,
    Pipeline,
    Error,
}

impl Default for WsMessageType {
    fn default() -> (r: Self)
        ensures
            r == WsMessageType::Error,
    {
        WsMessageType::Error
    }
}

/// Payload of a wire envelope, typed by its kind.
#[derive(Debug)]
pub enum WsMessageData {
    /// The set of active data channels (inbound: authoritative echo;
    /// outbound: the desired set).
    Subscriptions(Vec<ChannelId>),
    /// The device catalog (inbound), or a catalog pull request (outbound,
    /// empty).
    Devices(Vec<DeviceId>),
    /// The selected device (inbound: authoritative; outbound: a selection
    /// command).
    Device(Device),
    /// The pipeline configuration (inbound: backend-confirmed; outbound: a
    /// configuration push).
    Pipeline(DeviceConfig),
    /// A backend-reported or locally synthesised error (inbound only).
    Error(Error),
}

pub enum WsMessageDataView {
    Subscriptions(Seq<ChannelId>),
    Devices(Seq<DeviceId>),
    Device(Device),
    Pipeline(DeviceConfigView),
    Error(ErrorView),
}

impl View for WsMessageData {
    type V = WsMessageDataView;

    open spec fn view(&self) -> WsMessageDataView {
        match self {
            WsMessageData::Subscriptions(s) => WsMessageDataView::Subscriptions(s@),
            WsMessageData::Devices(d) => WsMessageDataView::Devices(d@),
            WsMessageData::Device(d) => WsMessageDataView::Device(*d),
            WsMessageData::Pipeline(c) => WsMessageDataView::Pipeline(c@),
            WsMessageData::Error(e) => WsMessageDataView::Error(e@),
        }
    }
}

/// A full wire envelope.
#[derive(Debug)]
pub struct BackWsMessage {
    pub kind: WsMessageType,
    pub data: WsMessageData,
}

#[verifier::ext_equal]
pub struct BackWsMessageView {
    pub kind: WsMessageType,
    pub data: WsMessageDataView,
}

impl View for BackWsMessage {
    type V = BackWsMessageView;

    open spec fn view(&self) -> BackWsMessageView {
        BackWsMessageView { kind: self.kind, data: self.data@ }
    }
}

/// The kind field agrees with the payload variant.
pub open spec fn msg_wf(m: BackWsMessageView) -> bool {
    match m.data {
        WsMessageDataView::Subscriptions(_) => m.kind == WsMessageType::Subscriptions,
        WsMessageDataView::Devices(_) => m.kind == WsMessageType::Devices,
        WsMessageDataView::Device(_) => m.kind == WsMessageType::Device,
        WsMessageDataView::Pipeline(_) => m.kind == WsMessageType::Pipeline,
        WsMessageDataView::Error(_) => m.kind == WsMessageType::Error,
    }
}

impl Default for BackWsMessage {
    fn default() -> (r: Self)
        ensures
            r@ == spec_default_message(),
            msg_wf(r@),
    {
        BackWsMessage {
            kind: WsMessageType::Error,
            data: WsMessageData::Error(Error::default()),
        }
    }
}

/// The envelope a decoder falls back to when a payload is malformed.
pub open spec fn spec_default_message() -> BackWsMessageView {
    BackWsMessageView {
        kind: WsMessageType::Error,
        data: WsMessageDataView::Error(ErrorView {
            action: crate::config::ErrorAction::NoAction,
            message: "Invalid message"@,
        }),
    }
}

/// Shorthands used throughout the session contracts.
pub open spec fn subscriptions_msg(s: Seq<ChannelId>) -> BackWsMessageView {
    BackWsMessageView { kind: WsMessageType::Subscriptions, data: WsMessageDataView::Subscriptions(s) }
}

pub open spec fn devices_pull_msg() -> BackWsMessageView {
    BackWsMessageView { kind: WsMessageType::Devices, data: WsMessageDataView::Devices(Seq::empty()) }
}

pub open spec fn device_msg(id: DeviceId) -> BackWsMessageView {
    BackWsMessageView { kind: WsMessageType::Device, data: WsMessageDataView::Device(Device { id }) }
}

pub open spec fn pipeline_msg(c: DeviceConfigView) -> BackWsMessageView {
    BackWsMessageView { kind: WsMessageType::Pipeline, data: WsMessageDataView::Pipeline(c) }
}

} // verus!
