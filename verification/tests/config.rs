use depthai_session::channel::{all_subscriptions, ChannelId};
use depthai_session::config::{
    bool_true, AiModel, BoardSocket, ColorCameraConfig, ColorCameraResolution, DepthConfig,
    DepthMedianFilter, DepthProfilePreset, Device, DeviceConfig, Error, ErrorAction,
    MonoCameraConfig, MonoCameraResolution, PointcloudConfig,
};
use depthai_session::session::{default_channel_map, default_neural_networks};
use depthai_session::transport::ApiError;

#[test]
fn defaults_match_the_protocol() {
    assert_eq!(
        ColorCameraConfig::default(),
        ColorCameraConfig { fps: 30, resolution: ColorCameraResolution::THE_1080_P }
    );
    assert_eq!(
        MonoCameraConfig::default(),
        MonoCameraConfig {
            fps: 30,
            resolution: MonoCameraResolution::THE_400_P,
            board_socket: BoardSocket::AUTO,
        }
    );
    assert_eq!(DepthProfilePreset::default(), DepthProfilePreset::HIGH_DENSITY);
    assert_eq!(DepthMedianFilter::default(), DepthMedianFilter::KERNEL_7x7);
    assert_eq!(
        DepthConfig::default(),
        DepthConfig {
            median: DepthMedianFilter::KERNEL_7x7,
            pointcloud: PointcloudConfig { enabled: false },
        }
    );
    assert_eq!(DepthConfig::default_as_option(), Some(DepthConfig::default()));
    assert!(bool_true());
    assert_eq!(Device::default().id, -1);
    let config = DeviceConfig::default();
    assert!(config.depth.is_none());
    assert!(!config.depth_enabled);
    assert_eq!(config.ai_model.path, "");
    assert_eq!(config.ai_model.display_name, "No model selected");
    let error = Error::default();
    assert_eq!(error.action, ErrorAction::NoAction);
    assert_eq!(error.message, "Invalid message");
    assert_eq!(ApiError::default().detail, "ApiError");
}

#[test]
fn display_labels() {
    assert_eq!(ColorCameraResolution::THE_1080_P.display_str(), "1080p");
    assert_eq!(ColorCameraResolution::THE_4_K.display_str(), "4k");
    assert_eq!(MonoCameraResolution::THE_400_P.display_str(), "400p");
    assert_eq!(DepthProfilePreset::HIGH_DENSITY.display_str(), "High Density");
    assert_eq!(DepthProfilePreset::HIGH_ACCURACY.display_str(), "High Accuracy");
}

#[test]
fn all_subscriptions_lists_the_streaming_channels() {
    assert_eq!(
        all_subscriptions(),
        vec![
            ChannelId::ColorImage,
            ChannelId::LeftMono,
            ChannelId::RightMono,
            ChannelId::DepthImage,
            ChannelId::PointCloud,
        ]
    );
}

#[test]
fn default_neural_networks_offer_five_models() {
    let nets = default_neural_networks();
    assert_eq!(nets.len(), 5);
    assert_eq!(nets[0].path, "");
    assert_eq!(nets[1].path, "yolo-v3-tiny-tf");
    assert_eq!(nets[1].display_name, "Yolo (tiny)");
    assert_eq!(nets[4].path, "age-gender-recognition-retail-0013");
}

#[test]
fn default_channel_map_names_the_well_known_paths() {
    let map = default_channel_map();
    assert_eq!(map.len(), 5);
    assert_eq!(map[0].path, "world/camera/image/rgb");
    assert_eq!(map[0].channel, ChannelId::ColorImage);
    assert_eq!(map[3].path, "right mono camera/depth");
    assert_eq!(map[3].channel, ChannelId::DepthImage);
}

#[test]
fn ai_model_clone_keeps_fields() {
    let m = AiModel { path: String::from("p"), display_name: String::from("d") };
    let c = m.clone();
    assert_eq!(c.path, "p");
    assert_eq!(c.display_name, "d");
}
