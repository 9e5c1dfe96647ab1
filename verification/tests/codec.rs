use depthai_session::channel::ChannelId;
use depthai_session::codec::{decode_message, encode_message};
use depthai_session::config::{
    AiModel, BoardSocket, ColorCameraResolution, DepthConfig, DepthMedianFilter, Device,
    DeviceConfig, ErrorAction, PointcloudConfig, device_config_eq,
};
use depthai_session::message::{BackWsMessage, WsMessageData, WsMessageType};

fn sample_config() -> DeviceConfig {
    let mut c = DeviceConfig::default();
    c.color_camera.fps = 25;
    c.color_camera.resolution = ColorCameraResolution::THE_4_K;
    c.left_camera.board_socket = BoardSocket::LEFT;
    c.right_camera.board_socket = BoardSocket::RIGHT;
    c.depth_enabled = true;
    c.depth = Some(DepthConfig {
        median: DepthMedianFilter::KERNEL_3x3,
        pointcloud: PointcloudConfig { enabled: true },
    });
    c.ai_model = AiModel {
        path: String::from("mobilenet-ssd"),
        display_name: String::from("MobileNet SSD"),
    };
    c
}

#[test]
fn pipeline_round_trip() {
    let original = sample_config();
    let text = encode_message(&BackWsMessage {
        kind: WsMessageType::Pipeline,
        data: WsMessageData::Pipeline(original.clone()),
    })
    .expect("pipeline encodes");
    let decoded = decode_message(&text).expect("valid JSON decodes");
    assert_eq!(decoded.kind, WsMessageType::Pipeline);
    match &decoded.data {
        WsMessageData::Pipeline(c) => assert!(device_config_eq(c, &original)),
        _ => panic!("expected a Pipeline payload"),
    }
}

#[test]
fn config_without_depth_round_trip() {
    let mut original = sample_config();
    original.depth = None;
    original.depth_enabled = false;
    let text = encode_message(&BackWsMessage {
        kind: WsMessageType::Pipeline,
        data: WsMessageData::Pipeline(original.clone()),
    })
    .expect("pipeline encodes");
    let decoded = decode_message(&text).expect("valid JSON decodes");
    match &decoded.data {
        WsMessageData::Pipeline(c) => assert!(device_config_eq(c, &original)),
        _ => panic!("expected a Pipeline payload"),
    }
}

#[test]
fn subscriptions_round_trip() {
    let subs = vec![ChannelId::ColorImage, ChannelId::DepthImage, ChannelId::PinholeCamera];
    let text = encode_message(&BackWsMessage {
        kind: WsMessageType::Subscriptions,
        data: WsMessageData::Subscriptions(subs.clone()),
    })
    .expect("subscriptions encode");
    let decoded = decode_message(&text).expect("valid JSON decodes");
    match &decoded.data {
        WsMessageData::Subscriptions(s) => assert_eq!(s, &subs),
        _ => panic!("expected a Subscriptions payload"),
    }
}

#[test]
fn devices_round_trip() {
    let ids = vec![-1, 0, 7, 11];
    let text = encode_message(&BackWsMessage {
        kind: WsMessageType::Devices,
        data: WsMessageData::Devices(ids.clone()),
    })
    .expect("devices encode");
    let decoded = decode_message(&text).expect("valid JSON decodes");
    match &decoded.data {
        WsMessageData::Devices(d) => assert_eq!(d, &ids),
        _ => panic!("expected a Devices payload"),
    }
}

#[test]
fn device_round_trip() {
    let text = encode_message(&BackWsMessage {
        kind: WsMessageType::Device,
        data: WsMessageData::Device(Device { id: 42 }),
    })
    .expect("device encodes");
    let decoded = decode_message(&text).expect("valid JSON decodes");
    match &decoded.data {
        WsMessageData::Device(d) => assert_eq!(d.id, 42),
        _ => panic!("expected a Device payload"),
    }
}

#[test]
fn unknown_kind_degrades_to_error() {
    let decoded = decode_message("{\"type\":\"Telemetry\",\"data\":{}}").expect("an envelope decodes");
    assert_eq!(decoded.kind, WsMessageType::Error);
    match &decoded.data {
        WsMessageData::Error(e) => {
            assert_eq!(e.action, ErrorAction::NoAction);
            assert_eq!(e.message, "Invalid message");
        }
        _ => panic!("expected an Error payload"),
    }
}

#[test]
fn missing_data_degrades_to_error() {
    let decoded = decode_message("{\"type\":\"Devices\"}").expect("an envelope decodes");
    assert_eq!(decoded.kind, WsMessageType::Error);
}

#[test]
fn malformed_devices_payload_degrades_to_error() {
    let decoded = decode_message("{\"type\":\"Devices\",\"data\":[1,\"two\"]}")
        .expect("an envelope decodes");
    assert_eq!(decoded.kind, WsMessageType::Error);
}

#[test]
fn unknown_channel_tags_are_inert() {
    let decoded = decode_message(
        "{\"type\":\"Subscriptions\",\"data\":[\"ColorImage\",\"FutureChannel\",\"LeftMono\"]}",
    )
    .expect("an envelope decodes");
    match &decoded.data {
        WsMessageData::Subscriptions(s) => {
            assert_eq!(s, &vec![ChannelId::ColorImage, ChannelId::LeftMono])
        }
        _ => panic!("expected a Subscriptions payload"),
    }
}

#[test]
fn error_payload_decodes_both_actions() {
    let advisory =
        decode_message("{\"type\":\"Error\",\"data\":{\"message\":\"m\",\"action\":\"None\"}}")
            .expect("an envelope decodes");
    match &advisory.data {
        WsMessageData::Error(e) => {
            assert_eq!(e.action, ErrorAction::NoAction);
            assert_eq!(e.message, "m");
        }
        _ => panic!("expected an Error payload"),
    }
    let reset =
        decode_message("{\"type\":\"Error\",\"data\":{\"message\":\"m\",\"action\":\"FullReset\"}}")
            .expect("an envelope decodes");
    match &reset.data {
        WsMessageData::Error(e) => assert_eq!(e.action, ErrorAction::FullReset),
        _ => panic!("expected an Error payload"),
    }
}

#[test]
fn non_json_text_is_dropped() {
    assert!(decode_message("not json at all").is_none());
    assert!(decode_message("").is_none());
}

#[test]
fn absent_depth_field_defaults_to_a_depth_stage() {
    // Mirrors the wire tolerance: an absent depth stage means the default
    // one, while an explicit null means none.
    let with_default = "{\"type\":\"Pipeline\",\"data\":{\"color_camera\":{\"fps\":30,\"resolution\":\"THE_1080_P\"},\"left_camera\":{\"fps\":30,\"resolution\":\"THE_400_P\",\"board_socket\":\"LEFT\"},\"right_camera\":{\"fps\":30,\"resolution\":\"THE_400_P\",\"board_socket\":\"RIGHT\"},\"ai_model\":{\"path\":\"\",\"display_name\":\"n\"}}}";
    let decoded = decode_message(with_default).expect("valid JSON decodes");
    match &decoded.data {
        WsMessageData::Pipeline(c) => {
            assert_eq!(c.depth, DepthConfig::default_as_option());
            assert!(c.depth_enabled);
        }
        _ => panic!("expected a Pipeline payload"),
    }

    let with_null = "{\"type\":\"Pipeline\",\"data\":{\"color_camera\":{\"fps\":30,\"resolution\":\"THE_1080_P\"},\"left_camera\":{\"fps\":30,\"resolution\":\"THE_400_P\",\"board_socket\":\"LEFT\"},\"right_camera\":{\"fps\":30,\"resolution\":\"THE_400_P\",\"board_socket\":\"RIGHT\"},\"depth\":null,\"ai_model\":{\"path\":\"\",\"display_name\":\"n\"}}}";
    let decoded = decode_message(with_null).expect("valid JSON decodes");
    match &decoded.data {
        WsMessageData::Pipeline(c) => assert!(c.depth.is_none()),
        _ => panic!("expected a Pipeline payload"),
    }
}

#[test]
fn out_of_range_fps_is_malformed() {
    let text = "{\"type\":\"Pipeline\",\"data\":{\"color_camera\":{\"fps\":300,\"resolution\":\"THE_1080_P\"},\"left_camera\":{\"fps\":30,\"resolution\":\"THE_400_P\",\"board_socket\":\"LEFT\"},\"right_camera\":{\"fps\":30,\"resolution\":\"THE_400_P\",\"board_socket\":\"RIGHT\"},\"ai_model\":{\"path\":\"\",\"display_name\":\"n\"}}}";
    let decoded = decode_message(text).expect("valid JSON decodes");
    assert_eq!(decoded.kind, WsMessageType::Error);
}
