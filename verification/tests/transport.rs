use depthai_session::channel::ChannelId;
use depthai_session::config::DeviceConfig;
use depthai_session::message::{WsMessageData, WsMessageType};
use depthai_session::transport::BackendCommChannel;

#[test]
fn receive_is_fifo_and_one_per_call() {
    let mut t = BackendCommChannel::default();
    t.deliver_text("{\"type\":\"Devices\",\"data\":[1]}");
    t.deliver_text("{\"type\":\"Devices\",\"data\":[2]}");
    let first = t.receive().expect("first event");
    match &first.data {
        WsMessageData::Devices(d) => assert_eq!(d, &vec![1]),
        _ => panic!("expected a Devices event"),
    }
    let second = t.receive().expect("second event");
    match &second.data {
        WsMessageData::Devices(d) => assert_eq!(d, &vec![2]),
        _ => panic!("expected a Devices event"),
    }
    assert!(t.receive().is_none());
}

#[test]
fn commands_queue_in_order() {
    let mut t = BackendCommChannel::default();
    t.get_devices();
    t.set_device(7);
    t.set_subscriptions(&vec![ChannelId::ColorImage]);
    t.set_pipeline(&DeviceConfig::default());
    let out = t.take_outbound();
    let kinds: Vec<WsMessageType> = out.iter().map(|m| m.kind).collect();
    assert_eq!(
        kinds,
        vec![
            WsMessageType::Devices,
            WsMessageType::Device,
            WsMessageType::Subscriptions,
            WsMessageType::Pipeline,
        ]
    );
    assert!(t.take_outbound().is_empty());
}

#[test]
fn shutdown_silences_the_channel() {
    let mut t = BackendCommChannel::default();
    t.shutdown();
    t.set_device(7);
    assert!(t.take_outbound().is_empty());
    t.deliver_text("{\"type\":\"Devices\",\"data\":[1]}");
    assert!(t.receive().is_none());
}

#[test]
fn connected_flag_tracks_reports() {
    let mut t = BackendCommChannel::default();
    assert!(!t.is_connected());
    t.set_connected(true);
    assert!(t.is_connected());
    t.set_connected(false);
    assert!(!t.is_connected());
}

#[test]
fn dropped_frames_leave_no_event() {
    let mut t = BackendCommChannel::default();
    t.deliver_text("][ not json");
    assert!(t.receive().is_none());
}
