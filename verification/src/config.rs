//! Device-side value objects: camera configurations, the pipeline
//! configuration pushed to the backend, and the error payload the backend
//! may send back.

use vstd::prelude::*;

verus! {

/// Opaque signed device identifier; `-1` means "no device selected".
pub type DeviceId = i64;

/// The identifier the backend uses for "no device selected".
pub const NO_DEVICE: DeviceId = -1;

#[derive(Clone, Copy, PartialEq, Eq, Structural, Debug)]
#[allow(non_camel_case_types)]
pub enum ColorCameraResolution {
    THE_1080_P,
    THE_4_K,
}

#[derive(Clone, Copy, PartialEq, Eq, Structural, Debug)]
#[allow(non_camel_case_types)]
pub enum MonoCameraResolution {
    THE_400_P,
}

impl ColorCameraResolution {
    /// Short label shown in the user interface.
    pub fn display_str(&self) -> (r: &'static str)
        ensures
            r@ == match *self {
                ColorCameraResolution::THE_1080_P => "1080p"@,
                ColorCameraResolution::THE_4_K => "4k"@,
            },
    {
        match self {
            ColorCameraResolution::THE_1080_P => "1080p",
            ColorCameraResolution::THE_4_K => "4k",
        }
    }
}

impl MonoCameraResolution {
    /// Short label shown in the user interface.
    pub fn display_str(&self) -> (r: &'static str)
        ensures
            r@ == "400p"@,
    {
        match self {
            MonoCameraResolution::THE_400_P => "400p",
        }
    }
}

#[derive(Clone, Copy, PartialEq, Eq, Structural, Debug)]
pub struct ColorCameraConfig {
    pub fps: u8,
    pub resolution: ColorCameraResolution,
}

impl Default for ColorCameraConfig {
    fn default() -> (r: Self)
        ensures
            r.fps == 30u8,
            r.resolution == ColorCameraResolution::THE_1080_P,
    {
        ColorCameraConfig { fps: 30, resolution: ColorCameraResolution::THE_1080_P }
    }
}

#[derive(Clone, Copy, PartialEq, Eq, Structural, Debug)]
#[allow(non_camel_case_types)]
pub enum BoardSocket {
    AUTO,
    RGB,
    LEFT,
    RIGHT,
    CENTER,
    CAM_A,
    CAM_B,
    CAM_C,
    CAM_D,
    CAM_E,
    CAM_F,
    CAM_G,
    CAM_H,
}

#[derive(Clone, Copy, PartialEq, Eq, Structural, Debug)]
pub struct MonoCameraConfig {
    pub fps: u8,
    pub resolution: MonoCameraResolution,
    pub board_socket: BoardSocket,
}

impl Default for MonoCameraConfig {
    fn default() -> (r: Self)
        ensures
            r.fps == 30u8,
            r.resolution == MonoCameraResolution::THE_400_P,
            r.board_socket == BoardSocket::AUTO,
    {
        MonoCameraConfig {
            fps: 30,
            resolution: MonoCameraResolution::THE_400_P,
            board_socket: BoardSocket::AUTO,
        }
    }
}

#[derive(Clone, Copy, PartialEq, Eq, Structural, Debug)]
#[allow(non_camel_case_types)]
pub enum DepthProfilePreset {
    HIGH_DENSITY,
    HIGH_ACCURACY,
}

impl Default for DepthProfilePreset {
    fn default() -> (r: Self)
        ensures
            r == DepthProfilePreset::HIGH_DENSITY,
    {
        DepthProfilePreset::HIGH_DENSITY
    }
}

impl DepthProfilePreset {
    /// Label shown in the user interface.
    pub fn display_str(&self) -> (r: &'static str)
        ensures
            r@ == match *self {
                DepthProfilePreset::HIGH_DENSITY => "High Density"@,
                DepthProfilePreset::HIGH_ACCURACY => "High Accuracy"@,
            },
    {
        match self {
            DepthProfilePreset::HIGH_DENSITY => "High Density",
            DepthProfilePreset::HIGH_ACCURACY => "High Accuracy",
        }
    }
}

#[derive(Clone, Copy, PartialEq, Eq, Structural, Debug)]
#[allow(non_camel_case_types)]
pub enum DepthMedianFilter {
    MEDIAN_OFF,
    KERNEL_3x3,
    KERNEL_5x5,
    KERNEL_7x7,
}

impl Default for DepthMedianFilter {
    fn default() -> (r: Self)
        ensures
            r == DepthMedianFilter::KERNEL_7x7,
    {
        DepthMedianFilter::KERNEL_7x7
    }
}

#[derive(Clone, Copy, PartialEq, Eq, Structural, Debug)]
pub struct PointcloudConfig {
    pub enabled: bool,
}

impl Default for PointcloudConfig {
    fn default() -> (r: Self)
        ensures
            r.enabled == false,
    {
        PointcloudConfig { enabled: false }
    }
}

#[derive(Clone, Copy, PartialEq, Eq, Structural, Debug)]
pub struct DepthConfig {
    pub median: DepthMedianFilter,
    pub pointcloud: PointcloudConfig,
}

impl Default for DepthConfig {
    fn default() -> (r: Self)
        ensures
            r.median == DepthMedianFilter::KERNEL_7x7,
            r.pointcloud.enabled == false,
    {
        DepthConfig { median: DepthMedianFilter::KERNEL_7x7, pointcloud: PointcloudConfig { enabled: false } }
    }
}

impl DepthConfig {
    pub fn default_as_option() -> (r: Option<DepthConfig>)
        ensures
            r == Some(DepthConfig {
                median: DepthMedianFilter::KERNEL_7x7,
                pointcloud: PointcloudConfig { enabled: false },
            }),
    {
        Some(DepthConfig::default())
    }
}

/// Fallback used where an absent flag on the wire means "enabled".
pub fn bool_true() -> (r: bool)
    ensures
        r == true,
{
    true
}

/// Neural-network model selectable for the device pipeline.
#[derive(Debug)]
pub struct AiModel {
    pub path: String,
    pub display_name: String,
}

#[verifier::ext_equal]
pub struct AiModelView {
    pub path: Seq<char>,
    pub display_name: Seq<char>,
}

impl View for AiModel {
    type V = AiModelView;

    open spec fn view(&self) -> AiModelView {
        AiModelView { path: self.path@, display_name: self.display_name@ }
    }
}

impl Clone for AiModel {
    fn clone(&self) -> (r: Self)
        ensures
            r@ == self@,
    {
        AiModel { path: self.path.clone(), display_name: self.display_name.clone() }
    }
}

impl Default for AiModel {
    fn default() -> (r: Self)
        ensures
            r@.path == ""@,
            r@.display_name == "No model selected"@,
    {
        AiModel {
            path: String::from_str(""),
            display_name: String::from_str("No model selected"),
        }
    }
}

/// Compares two models field by field.
pub fn ai_model_eq(a: &AiModel, b: &AiModel) -> (r: bool)
    ensures
        r == (a@ == b@),
{
    let r = a.path == b.path && a.display_name == b.display_name;
    proof {
        if a@.path == b@.path && a@.display_name == b@.display_name {
            assert(a@ == b@);
        }
    }
    r
}

/// The full pipeline configuration the client believes in, and pushes to the
/// backend as a `Pipeline` command.
#[derive(Debug)]
pub struct DeviceConfig {
    pub color_camera: ColorCameraConfig,
    pub left_camera: MonoCameraConfig,
    pub right_camera: MonoCameraConfig,
    pub depth_enabled: bool,
    pub depth: Option<DepthConfig>,
    pub ai_model: AiModel,
}

#[verifier::ext_equal]
pub struct DeviceConfigView {
    pub color_camera: ColorCameraConfig,
    pub left_camera: MonoCameraConfig,
    pub right_camera: MonoCameraConfig,
    pub depth_enabled: bool,
    pub depth: Option<DepthConfig>,
    pub ai_model: AiModelView,
}

impl Clone for DeviceConfig {
    fn clone(&self) -> (r: Self)
        ensures
            r@ == self@,
    {
        let r = DeviceConfig {
            color_camera: self.color_camera,
            left_camera: self.left_camera,
            right_camera: self.right_camera,
            depth_enabled: self.depth_enabled,
            depth: self.depth,
            ai_model: self.ai_model.clone(),
        };
        proof {
            assert(r@ =~= self@);
        }
        r
    }
}

impl View for DeviceConfig {
    type V = DeviceConfigView;

    open spec fn view(&self) -> DeviceConfigView {
        DeviceConfigView {
            color_camera: self.color_camera,
            left_camera: self.left_camera,
            right_camera: self.right_camera,
            depth_enabled: self.depth_enabled,
            depth: self.depth,
            ai_model: self.ai_model@,
        }
    }
}

/// The configuration a fresh session starts from.
pub open spec fn spec_default_config() -> DeviceConfigView {
    DeviceConfigView {
        color_camera: ColorCameraConfig { fps: 30u8, resolution: ColorCameraResolution::THE_1080_P },
        left_camera: MonoCameraConfig {
            fps: 30u8,
            resolution: MonoCameraResolution::THE_400_P,
            board_socket: BoardSocket::AUTO,
        },
        right_camera: MonoCameraConfig {
            fps: 30u8,
            resolution: MonoCameraResolution::THE_400_P,
            board_socket: BoardSocket::AUTO,
        },
        depth_enabled: false,
        depth: None,
        ai_model: AiModelView { path: ""@, display_name: "No model selected"@ },
    }
}

impl Default for DeviceConfig {
    fn default() -> (r: Self)
        ensures
            r@ == spec_default_config(),
    {
        DeviceConfig {
            color_camera: ColorCameraConfig::default(),
            left_camera: MonoCameraConfig::default(),
            right_camera: MonoCameraConfig::default(),
            depth_enabled: false,
            depth: None,
            ai_model: AiModel::default(),
        }
    }
}

/// Compares two configurations field by field.
pub fn device_config_eq(a: &DeviceConfig, b: &DeviceConfig) -> (r: bool)
    ensures
        r == (a@ == b@),
{
    let depth_eq = match (a.depth, b.depth) {
        (Some(x), Some(y)) => x == y,
        (None, None) => true,
        _ => false,
    };
    let r = a.color_camera == b.color_camera && a.left_camera == b.left_camera
        && a.right_camera == b.right_camera && a.depth_enabled == b.depth_enabled && depth_eq
        && ai_model_eq(&a.ai_model, &b.ai_model);
    proof {
        if a@.color_camera == b@.color_camera && a@.left_camera == b@.left_camera
            && a@.right_camera == b@.right_camera && a@.depth_enabled == b@.depth_enabled
            && a@.depth == b@.depth && a@.ai_model == b@.ai_model {
            assert(a@ == b@);
        }
    }
    r
}

/// The mono cameras sit on fixed board sockets; every configuration pushed to
/// the backend must carry them, whatever the user interface supplied.
pub open spec fn spec_normalize_config(c: DeviceConfigView) -> DeviceConfigView {
    DeviceConfigView {
        color_camera: c.color_camera,
        left_camera: MonoCameraConfig {
            fps: c.left_camera.fps,
            resolution: c.left_camera.resolution,
            board_socket: BoardSocket::LEFT,
        },
        right_camera: MonoCameraConfig {
            fps: c.right_camera.fps,
            resolution: c.right_camera.resolution,
            board_socket: BoardSocket::RIGHT,
        },
        depth_enabled: c.depth_enabled,
        depth: c.depth,
        ai_model: c.ai_model,
    }
}

/// Force-sets the protocol-fixed board sockets on a candidate configuration.
pub fn normalize_config(config: &mut DeviceConfig)
    ensures
        final(config)@ == spec_normalize_config(old(config)@),
{
    config.left_camera.board_socket = BoardSocket::LEFT;
    config.right_camera.board_socket = BoardSocket::RIGHT;
}

/// What the backend asks the client to do about an error.
#[derive(Clone, Copy, PartialEq, Eq, Structural, Debug)]
pub enum ErrorAction {
    NoAction,
    FullReset,
}

/// Error payload of an inbound message.
#[derive(Debug)]
pub struct Error {
    pub action: ErrorAction,
    pub message: String,
}

#[verifier::ext_equal]
pub struct ErrorView {
    pub action: ErrorAction,
    pub message: Seq<char>,
}

impl View for Error {
    type V = ErrorView;

    open spec fn view(&self) -> ErrorView {
        ErrorView { action: self.action, message: self.message@ }
    }
}

impl Default for Error {
    fn default() -> (r: Self)
        ensures
            r@.action == ErrorAction::NoAction,
            r@.message == "Invalid message"@,
    {
        Error { action: ErrorAction::NoAction, message: String::from_str("Invalid message") }
    }
}

/// A known device, as the catalog and selection messages carry it.
#[derive(Clone, Copy, PartialEq, Eq, Structural, Debug)]
pub struct Device {
    pub id: DeviceId,
}

impl Default for Device {
    fn default() -> (r: Self)
        ensures
            r.id == NO_DEVICE,
    {
        Device { id: NO_DEVICE }
    }
}

/// The pipeline configuration the client currently believes in, plus whether
/// a configuration push still awaits the backend's echo.
#[derive(Debug)]
pub struct DeviceConfigState {
    pub config: DeviceConfig,
    pub update_in_progress: bool,
}

#[verifier::ext_equal]
pub struct DeviceConfigStateView {
    pub config: DeviceConfigView,
    pub update_in_progress: bool,
}

impl View for DeviceConfigState {
    type V = DeviceConfigStateView;

    open spec fn view(&self) -> DeviceConfigStateView {
        DeviceConfigStateView { config: self.config@, update_in_progress: self.update_in_progress }
    }
}

impl Default for DeviceConfigState {
    fn default() -> (r: Self)
        ensures
            r@.config == spec_default_config(),
            r@.update_in_progress == false,
    {
        DeviceConfigState { config: DeviceConfig::default(), update_in_progress: false }
    }
}

} // verus!
