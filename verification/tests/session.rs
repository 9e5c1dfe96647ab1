use depthai_session::channel::ChannelId;
use depthai_session::config::{BoardSocket, Device, DeviceConfig, DepthConfig, PointcloudConfig};
use depthai_session::message::{BackWsMessage, WsMessageData, WsMessageType};
use depthai_session::reconcile::EntityVisibility;
use depthai_session::session::State;

fn outbound_of(state: &mut State) -> Vec<BackWsMessage> {
    state.backend_comms.take_outbound()
}

fn count_kind(messages: &[BackWsMessage], kind: WsMessageType) -> usize {
    messages.iter().filter(|m| m.kind == kind).count()
}

#[test]
fn set_device_twice_sends_one_command() {
    let mut state = State::default();
    state.set_device(5);
    state.set_device(5);
    let out = outbound_of(&mut state);
    assert_eq!(count_kind(&out, WsMessageType::Device), 1);
    match &out[0].data {
        WsMessageData::Device(d) => assert_eq!(d.id, 5),
        _ => panic!("expected a Device command"),
    }
}

#[test]
fn set_device_same_as_selected_sends_nothing() {
    let mut state = State::default();
    state.selected_device = Device { id: 9 };
    state.set_device(9);
    let out = outbound_of(&mut state);
    assert!(out.is_empty());
}

#[test]
fn set_subscriptions_same_set_sends_nothing() {
    let mut state = State::default();
    // The default set, in a different order.
    let reordered = vec![
        ChannelId::PointCloud,
        ChannelId::DepthImage,
        ChannelId::RightMono,
        ChannelId::LeftMono,
        ChannelId::ColorImage,
    ];
    state.set_subscriptions(&reordered);
    let out = outbound_of(&mut state);
    assert!(out.is_empty());
}

#[test]
fn set_subscriptions_new_set_sends_one_command() {
    let mut state = State::default();
    let desired = vec![ChannelId::ColorImage];
    state.set_subscriptions(&desired);
    let out = outbound_of(&mut state);
    assert_eq!(out.len(), 1);
    match &out[0].data {
        WsMessageData::Subscriptions(s) => assert_eq!(s, &vec![ChannelId::ColorImage]),
        _ => panic!("expected a Subscriptions command"),
    }
    assert_eq!(state.subscriptions, vec![ChannelId::ColorImage]);
}

#[test]
fn pushed_config_has_forced_board_sockets() {
    let mut state = State::default();
    state.backend_comms.set_connected(true);
    state.selected_device = Device { id: 3 };
    let mut candidate = DeviceConfig::default();
    candidate.left_camera.board_socket = BoardSocket::CAM_D;
    candidate.right_camera.board_socket = BoardSocket::AUTO;
    state.set_device_config(&mut candidate);
    assert_eq!(candidate.left_camera.board_socket, BoardSocket::LEFT);
    assert_eq!(candidate.right_camera.board_socket, BoardSocket::RIGHT);
    assert!(state.device_config.update_in_progress);
    let out = outbound_of(&mut state);
    assert_eq!(out.len(), 1);
    match &out[0].data {
        WsMessageData::Pipeline(c) => {
            assert_eq!(c.left_camera.board_socket, BoardSocket::LEFT);
            assert_eq!(c.right_camera.board_socket, BoardSocket::RIGHT);
        }
        _ => panic!("expected a Pipeline command"),
    }
}

#[test]
fn config_push_needs_connection_and_device() {
    let mut state = State::default();
    let mut candidate = DeviceConfig::default();
    candidate.color_camera.fps = 15;
    // Not connected, no device selected: nothing happens.
    state.set_device_config(&mut candidate);
    assert!(!state.device_config.update_in_progress);
    assert!(outbound_of(&mut state).is_empty());
    // Connected, but still no device selected.
    state.backend_comms.set_connected(true);
    state.set_device_config(&mut candidate);
    assert!(outbound_of(&mut state).is_empty());
}

#[test]
fn config_push_equal_to_held_is_a_no_op() {
    let mut state = State::default();
    state.backend_comms.set_connected(true);
    state.selected_device = Device { id: 3 };
    let mut candidate = state.device_config.config.clone();
    candidate.left_camera.board_socket = BoardSocket::LEFT;
    candidate.right_camera.board_socket = BoardSocket::RIGHT;
    state.device_config.config = candidate.clone();
    state.set_device_config(&mut candidate);
    assert!(outbound_of(&mut state).is_empty());
    assert!(!state.device_config.update_in_progress);
}

#[test]
fn reconciliation_visibility_and_possibility() {
    let mut state = State::default();
    state.subscriptions = Vec::new();
    let visible = vec![
        EntityVisibility { path: String::from("world/camera/image/rgb"), visible: true },
        EntityVisibility { path: String::from("right mono camera/depth"), visible: false },
    ];
    // Depth absent: only the color image is wanted.
    state.device_config.config.depth = None;
    let desired = state.desired_subscriptions(&visible);
    assert_eq!(desired, vec![ChannelId::ColorImage]);
}

#[test]
fn reconciliation_retains_active_point_cloud() {
    let mut state = State::default();
    state.subscriptions = vec![ChannelId::ColorImage, ChannelId::PointCloud];
    state.device_config.config.depth = Some(DepthConfig {
        median: Default::default(),
        pointcloud: PointcloudConfig { enabled: true },
    });
    let visible = vec![
        EntityVisibility { path: String::from("world/camera/image/rgb"), visible: true },
        EntityVisibility { path: String::from("right mono camera/depth"), visible: false },
    ];
    // No view reports the point cloud, but it is active and still possible:
    // it is retained. The depth image is reported invisible and dropped.
    let desired = state.desired_subscriptions(&visible);
    assert!(desired.contains(&ChannelId::ColorImage));
    assert!(desired.contains(&ChannelId::PointCloud));
    assert!(!desired.contains(&ChannelId::DepthImage));
}

#[test]
fn malformed_pipeline_payload_degrades_to_error() {
    let mut state = State::default();
    state.device_config.update_in_progress = true;
    state.backend_comms.deliver_text("{\"type\":\"Pipeline\",\"data\":\"not-an-object\"}");
    state.update();
    // The malformed payload became an Error event; the tick returned
    // normally and resolved the pending push.
    assert!(!state.device_config.update_in_progress);
    assert_eq!(state.selected_device.id, -1);
}

#[test]
fn device_catalog_then_selection_round_trip() {
    let mut state = State::default();
    state.backend_comms.deliver_text("{\"type\":\"Devices\",\"data\":[7,11]}");
    state.update_at(10);
    assert_eq!(state.get_devices(), vec![7, 11]);

    state.set_device(7);
    let out = outbound_of(&mut state);
    assert_eq!(out.len(), 1);
    match &out[0].data {
        WsMessageData::Device(d) => assert_eq!(d.id, 7),
        _ => panic!("expected a Device command"),
    }
    // No optimistic update: the selection waits for the backend's echo.
    assert_eq!(state.selected_device.id, -1);

    state.backend_comms.deliver_text("{\"type\":\"Device\",\"data\":{\"id\":7}}");
    state.update_at(20);
    assert_eq!(state.selected_device.id, 7);
    // The fresh device gets the current subscriptions and configuration.
    let out = outbound_of(&mut state);
    assert_eq!(count_kind(&out, WsMessageType::Subscriptions), 1);
    assert_eq!(count_kind(&out, WsMessageType::Pipeline), 1);
    assert!(state.device_config.update_in_progress);
}

#[test]
fn pipeline_echo_enabling_depth_subscribes_depth_image() {
    let mut state = State::default();
    state.subscriptions = vec![ChannelId::ColorImage];
    assert!(state.device_config.config.depth.is_none());
    let frame = "{\"type\":\"Pipeline\",\"data\":{\"color_camera\":{\"fps\":30,\"resolution\":\"THE_1080_P\"},\"left_camera\":{\"fps\":30,\"resolution\":\"THE_400_P\",\"board_socket\":\"LEFT\"},\"right_camera\":{\"fps\":30,\"resolution\":\"THE_400_P\",\"board_socket\":\"RIGHT\"},\"depth_enabled\":true,\"depth\":{\"median\":\"KERNEL_7x7\",\"pointcloud\":{\"enabled\":false}},\"ai_model\":{\"path\":\"\",\"display_name\":\"No model selected\"}}}";
    state.backend_comms.deliver_text(frame);
    state.update_at(10);
    assert!(state.subscriptions.contains(&ChannelId::DepthImage));
    assert!(!state.subscriptions.contains(&ChannelId::PointCloud));
    assert!(state.device_config.config.depth.is_some());
    assert!(state.device_config.config.depth_enabled);
    assert!(!state.device_config.update_in_progress);
    let out = outbound_of(&mut state);
    assert_eq!(out.len(), 1);
    match &out[0].data {
        WsMessageData::Subscriptions(s) => assert!(s.contains(&ChannelId::DepthImage)),
        _ => panic!("expected a Subscriptions command"),
    }
}

#[test]
fn poll_rate_is_limited_to_one_pull_under_two_seconds() {
    let mut state = State::default();
    state.update_at(2500);
    state.update_at(3000);
    let out = outbound_of(&mut state);
    assert_eq!(count_kind(&out, WsMessageType::Devices), 1);
}

#[test]
fn poll_stops_once_a_device_is_selected() {
    let mut state = State::default();
    state.selected_device = Device { id: 4 };
    state.update_at(2500);
    state.update_at(6000);
    let out = outbound_of(&mut state);
    assert_eq!(count_kind(&out, WsMessageType::Devices), 0);
}

#[test]
fn error_with_full_reset_forces_deselection() {
    let mut state = State::default();
    state.selected_device = Device { id: 4 };
    state.device_config.update_in_progress = true;
    state.backend_comms.deliver_text(
        "{\"type\":\"Error\",\"data\":{\"message\":\"pipeline failed\",\"action\":\"FullReset\"}}",
    );
    state.update_at(10);
    assert!(!state.device_config.update_in_progress);
    let out = outbound_of(&mut state);
    assert_eq!(count_kind(&out, WsMessageType::Device), 1);
    match &out[0].data {
        WsMessageData::Device(d) => assert_eq!(d.id, -1),
        _ => panic!("expected a Device command"),
    }
}

#[test]
fn advisory_error_only_clears_pending_flag() {
    let mut state = State::default();
    state.device_config.update_in_progress = true;
    state.backend_comms.deliver_text(
        "{\"type\":\"Error\",\"data\":{\"message\":\"just a warning\",\"action\":\"None\"}}",
    );
    state.update_at(10);
    assert!(!state.device_config.update_in_progress);
    assert!(outbound_of(&mut state).is_empty());
}

#[test]
fn subscriptions_echo_is_authoritative() {
    let mut state = State::default();
    state.backend_comms.deliver_text("{\"type\":\"Subscriptions\",\"data\":[\"ColorImage\",\"LeftMono\"]}");
    state.update_at(10);
    assert_eq!(state.subscriptions, vec![ChannelId::ColorImage, ChannelId::LeftMono]);
    // The echo replaces local state without sending anything back.
    assert!(outbound_of(&mut state).is_empty());
}

#[test]
fn deselection_event_clears_pending_push() {
    let mut state = State::default();
    state.selected_device = Device { id: 6 };
    state.device_config.update_in_progress = true;
    state.backend_comms.deliver_text("{\"type\":\"Device\",\"data\":{\"id\":-1}}");
    state.update_at(10);
    assert_eq!(state.selected_device.id, -1);
    assert!(!state.device_config.update_in_progress);
    assert!(outbound_of(&mut state).is_empty());
}

#[test]
fn get_devices_is_empty_before_any_catalog() {
    let mut state = State::default();
    assert!(state.get_devices().is_empty());
}

#[test]
fn shutdown_makes_send_and_receive_inert() {
    let mut state = State::default();
    state.shutdown();
    state.set_device(5);
    assert!(outbound_of(&mut state).is_empty());
    state.backend_comms.deliver_text("{\"type\":\"Devices\",\"data\":[1]}");
    state.update_at(10);
    assert!(state.get_devices().is_empty());
}

#[test]
fn entities_to_remove_follows_configuration() {
    let mut state = State::default();
    let paths = vec![
        String::from("world/camera/image/rgb"),
        String::from("right mono camera/depth"),
        String::from("world/point_cloud"),
        String::from("somewhere/else"),
    ];
    // No depth stage: the depth image entity goes.
    state.device_config.config.depth = None;
    assert_eq!(state.entities_to_remove(&paths), vec![String::from("right mono camera/depth")]);
    // Depth without point cloud: the point cloud entity goes.
    state.device_config.config.depth = Some(DepthConfig {
        median: Default::default(),
        pointcloud: PointcloudConfig { enabled: false },
    });
    assert_eq!(state.entities_to_remove(&paths), vec![String::from("world/point_cloud")]);
    // Depth with point cloud: nothing goes.
    state.device_config.config.depth = Some(DepthConfig {
        median: Default::default(),
        pointcloud: PointcloudConfig { enabled: true },
    });
    assert!(state.entities_to_remove(&paths).is_empty());
}

#[test]
fn set_subscriptions_from_space_views_sends_delta_once() {
    let mut state = State::default();
    state.subscriptions = vec![ChannelId::ColorImage];
    let visible = vec![
        EntityVisibility { path: String::from("world/camera/image/rgb"), visible: true },
        EntityVisibility { path: String::from("Left mono camera"), visible: true },
    ];
    state.set_subscriptions_from_space_views(&visible);
    assert_eq!(state.subscriptions, vec![ChannelId::ColorImage, ChannelId::LeftMono]);
    let out = outbound_of(&mut state);
    assert_eq!(count_kind(&out, WsMessageType::Subscriptions), 1);
    // Reporting the same visibility again changes nothing.
    state.set_subscriptions_from_space_views(&visible);
    assert!(outbound_of(&mut state).is_empty());
}
