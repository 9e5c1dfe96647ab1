//! The device-session aggregate root: selected device, pipeline
//! configuration, active subscriptions, device catalog and the transport,
//! driven once per user-interface tick.
//!
//! Every mutator refines a spec-level transition function over `StateView`;
//! the session laws are then stated and proved over those transitions.

use vstd::prelude::*;

use crate::channel::{
    all_subscriptions, channel_possible, channel_set_eq, contains_channel, copy_channels,
    push_unique, same_channels, spec_all_subscriptions, ChannelId,
};
use crate::clock::{clock_now, elapsed_ms};
use crate::config::{
    device_config_eq, normalize_config, spec_default_config, spec_normalize_config, AiModel,
    Device, DeviceConfig, DeviceConfigState, DeviceConfigStateView, DeviceConfigView, DeviceId,
    ErrorAction, ErrorView, NO_DEVICE,
};
use crate::message::{
    device_msg, devices_pull_msg, pipeline_msg, subscriptions_msg, BackWsMessage,
    BackWsMessageView, WsMessageData, WsMessageDataView,
};
use crate::reconcile::{
    channel_votes, cmap_views, lemma_filter_one, lookup_channel, opt_chan, spec_channel_wanted,
    spec_desired_channels, spec_entities_to_remove, spec_path_removed, spec_remove_channels,
    vis_views, ChannelMapEntry, ChannelMapEntryView, EntityVisibility,
};
use crate::transport::{spec_receive, spec_send, BackendCommChannel, BackendCommChannelView};

verus! {

pub open spec fn nets_views(v: Seq<AiModel>) -> Seq<crate::config::AiModelView> {
    v.map_values(|m: AiModel| m@)
}

pub open spec fn path_views(v: Seq<String>) -> Seq<Seq<char>> {
    v.map_values(|s: String| s@)
}

/// The session state.
pub struct State {
    devices_available: Option<Vec<DeviceId>>,
    pub selected_device: Device,
    pending_device: Option<DeviceId>,
    pub device_config: DeviceConfigState,
    pub subscriptions: Vec<ChannelId>,
    pub backend_comms: BackendCommChannel,
    poll_last: Option<u64>,
    epoch: std::time::Instant,
    pub neural_networks: Vec<AiModel>,
    channel_map: Vec<ChannelMapEntry>,
}

#[verifier::ext_equal]
pub struct StateView {
    /// Last received device catalog, if any.
    pub devices_available: Option<Seq<DeviceId>>,
    /// The device the backend last confirmed; never set optimistically.
    pub selected_device: Device,
    /// A selection request in flight, used to suppress duplicates.
    pub pending_device: Option<DeviceId>,
    /// The believed configuration and the pending-push flag.
    pub device_config: DeviceConfigStateView,
    /// The channels believed active: last sent or last acknowledged.
    pub subscriptions: Seq<ChannelId>,
    /// The transport queues.
    pub backend_comms: BackendCommChannelView,
    /// Reading of the session clock at the last catalog poll.
    pub poll_last: Option<u64>,
    /// Models offered for the pipeline's inference stage.
    pub neural_networks: Seq<crate::config::AiModelView>,
    /// The entity-path-to-channel table the reconciler consults.
    pub channel_map: Seq<ChannelMapEntryView>,
}

impl View for State {
    type V = StateView;

    closed spec fn view(&self) -> StateView {
        StateView {
            devices_available: match self.devices_available {
                Some(ref d) => Some(d@),
                None => None,
            },
            selected_device: self.selected_device,
            pending_device: self.pending_device,
            device_config: self.device_config@,
            subscriptions: self.subscriptions@,
            backend_comms: self.backend_comms@,
            poll_last: self.poll_last,
            neural_networks: nets_views(self.neural_networks@),
            channel_map: cmap_views(self.channel_map@),
        }
    }
}

// ---------------------------------------------------------------------------
// Spec-level transitions

/// Adopting a desired subscription set: a no-op when it is set-equal to the
/// current one, else one `Subscriptions` command and a provisional local
/// update.
pub open spec fn spec_set_subscriptions(s: StateView, subs: Seq<ChannelId>) -> StateView {
    if same_channels(s.subscriptions, subs) {
        s
    } else {
        StateView {
            backend_comms: spec_send(s.backend_comms, subscriptions_msg(subs)),
            subscriptions: subs,
            ..s
        }
    }
}

/// Selecting a device: a no-op when it is already selected or already
/// requested; else one `Device` command, with no optimistic local update.
pub open spec fn spec_set_device(s: StateView, id: DeviceId) -> StateView {
    if s.selected_device.id == id || s.pending_device == Some(id) {
        s
    } else {
        StateView {
            backend_comms: spec_send(s.backend_comms, device_msg(id)),
            pending_device: Some(id),
            ..s
        }
    }
}

/// A configuration push is permitted only over an open socket and with a
/// device selected.
pub open spec fn spec_config_push_allowed(s: StateView) -> bool {
    s.backend_comms.connected && s.selected_device.id != NO_DEVICE
}

/// Pushing a candidate configuration: board sockets are forced first; a
/// candidate equal to the held configuration is a no-op; otherwise the
/// normalized candidate becomes authoritative and one `Pipeline` command is
/// queued, with the push pending until the backend echoes.
pub open spec fn spec_set_device_config(s: StateView, c: DeviceConfigView) -> StateView {
    if !spec_config_push_allowed(s) {
        s
    } else {
        let n = spec_normalize_config(c);
        if n == s.device_config.config {
            s
        } else {
            StateView {
                device_config: DeviceConfigStateView { config: n, update_in_progress: true },
                backend_comms: spec_send(s.backend_comms, pipeline_msg(n)),
                ..s
            }
        }
    }
}

/// The subscription set after a `Pipeline` echo: depth channels the new
/// configuration enables are added to the outgoing set.
pub open spec fn spec_pipeline_subscriptions(current: Seq<ChannelId>, c: DeviceConfigView) -> Seq<
    ChannelId,
> {
    let s1 = if c.depth is Some && !current.contains(ChannelId::DepthImage) {
        current.push(ChannelId::DepthImage)
    } else {
        current
    };
    if (c.depth matches Some(d) && d.pointcloud.enabled) && !s1.contains(ChannelId::PointCloud) {
        s1.push(ChannelId::PointCloud)
    } else {
        s1
    }
}

/// A `Pipeline` echo: the configuration becomes authoritative,
/// `depth_enabled` is derived from it, newly enabled depth channels are
/// subscribed, and the pending push is resolved.
pub open spec fn spec_adopt_pipeline(s: StateView, c: DeviceConfigView) -> StateView {
    let adopted = DeviceConfigView { depth_enabled: c.depth is Some, ..c };
    let subs = spec_pipeline_subscriptions(s.subscriptions, c);
    let s1 = StateView {
        device_config: DeviceConfigStateView {
            config: adopted,
            update_in_progress: s.device_config.update_in_progress,
        },
        ..s
    };
    let s2 = spec_set_subscriptions(s1, subs);
    StateView {
        device_config: DeviceConfigStateView { config: adopted, update_in_progress: false },
        ..s2
    }
}

/// A `Device` event: the backend's word on the selection. A fresh device
/// starts with no assumed state, so the current subscriptions and
/// configuration are re-pushed; deselection only resolves the pending push.
pub open spec fn spec_adopt_device(s: StateView, d: Device) -> StateView {
    if d.id == NO_DEVICE {
        StateView {
            selected_device: d,
            pending_device: None,
            device_config: DeviceConfigStateView { update_in_progress: false, ..s.device_config },
            ..s
        }
    } else {
        let t1 = spec_send(s.backend_comms, subscriptions_msg(s.subscriptions));
        let t2 = spec_send(t1, pipeline_msg(s.device_config.config));
        StateView {
            selected_device: d,
            pending_device: None,
            backend_comms: t2,
            device_config: DeviceConfigStateView { update_in_progress: true, ..s.device_config },
            ..s
        }
    }
}

/// An `Error` event: the pending push is resolved; a full reset forces
/// deselection.
pub open spec fn spec_handle_error(s: StateView, e: ErrorView) -> StateView {
    let s1 = StateView {
        device_config: DeviceConfigStateView { update_in_progress: false, ..s.device_config },
        ..s
    };
    if e.action == ErrorAction::FullReset {
        spec_set_device(s1, NO_DEVICE)
    } else {
        s1
    }
}

/// Dispatch of one inbound event by its payload.
pub open spec fn spec_dispatch(s: StateView, m: BackWsMessageView) -> StateView {
    match m.data {
        WsMessageDataView::Subscriptions(subs) => StateView { subscriptions: subs, ..s },
        WsMessageDataView::Devices(ids) => StateView { devices_available: Some(ids), ..s },
        WsMessageDataView::Device(d) => spec_adopt_device(s, d),
        WsMessageDataView::Pipeline(c) => spec_adopt_pipeline(s, c),
        WsMessageDataView::Error(e) => spec_handle_error(s, e),
    }
}

/// The asymmetric catalog poll: at most every two seconds, and only while
/// no device is selected.
pub open spec fn spec_poll(s: StateView, now: u64) -> StateView {
    match s.poll_last {
        None => StateView { poll_last: Some(now), ..s },
        Some(p) => if now >= p && now - p >= 2000 {
            let t = if s.selected_device.id == NO_DEVICE {
                spec_send(s.backend_comms, devices_pull_msg())
            } else {
                s.backend_comms
            };
            StateView { backend_comms: t, poll_last: Some(now), ..s }
        } else {
            s
        },
    }
}

/// One tick: drain at most one inbound event, dispatch it, then poll.
pub open spec fn spec_update(s: StateView, now: u64) -> StateView {
    let r = spec_receive(s.backend_comms);
    let s1 = StateView { backend_comms: r.0, ..s };
    let s2 = match r.1 {
        Some(m) => spec_dispatch(s1, m),
        None => s1,
    };
    spec_poll(s2, now)
}

// ---------------------------------------------------------------------------
// Construction

pub open spec fn spec_default_networks() -> Seq<crate::config::AiModelView> {
    seq![
        crate::config::AiModelView { path: ""@, display_name: "No model selected"@ },
        crate::config::AiModelView { path: "yolo-v3-tiny-tf"@, display_name: "Yolo (tiny)"@ },
        crate::config::AiModelView { path: "mobilenet-ssd"@, display_name: "MobileNet SSD"@ },
        crate::config::AiModelView {
            path: "face-detection-retail-0004"@,
            display_name: "Face Detection"@,
        },
        crate::config::AiModelView {
            path: "age-gender-recognition-retail-0013"@,
            display_name: "Age gender recognition"@,
        },
    ]
}

/// The models offered by default for the pipeline's inference stage.
pub fn default_neural_networks() -> (r: Vec<AiModel>)
    ensures
        nets_views(r@) == spec_default_networks(),
{
    let mut r: Vec<AiModel> = Vec::new();
    r.push(AiModel::default());
    r.push(AiModel {
        path: String::from_str("yolo-v3-tiny-tf"),
        display_name: String::from_str("Yolo (tiny)"),
    });
    r.push(AiModel {
        path: String::from_str("mobilenet-ssd"),
        display_name: String::from_str("MobileNet SSD"),
    });
    r.push(AiModel {
        path: String::from_str("face-detection-retail-0004"),
        display_name: String::from_str("Face Detection"),
    });
    r.push(AiModel {
        path: String::from_str("age-gender-recognition-retail-0013"),
        display_name: String::from_str("Age gender recognition"),
    });
    proof {
        assert(nets_views(r@) =~= spec_default_networks());
    }
    r
}

pub open spec fn spec_default_channel_map() -> Seq<ChannelMapEntryView> {
    seq![
        ChannelMapEntryView { path: "world/camera/image/rgb"@, channel: ChannelId::ColorImage },
        ChannelMapEntryView { path: "Left mono camera"@, channel: ChannelId::LeftMono },
        ChannelMapEntryView { path: "Right mono camera"@, channel: ChannelId::RightMono },
        ChannelMapEntryView { path: "right mono camera/depth"@, channel: ChannelId::DepthImage },
        ChannelMapEntryView { path: "world/point_cloud"@, channel: ChannelId::PointCloud },
    ]
}

/// The well-known entity paths and the channels that feed them.
pub fn default_channel_map() -> (r: Vec<ChannelMapEntry>)
    ensures
        cmap_views(r@) == spec_default_channel_map(),
{
    let mut r: Vec<ChannelMapEntry> = Vec::new();
    r.push(ChannelMapEntry {
        path: String::from_str("world/camera/image/rgb"),
        channel: ChannelId::ColorImage,
    });
    r.push(ChannelMapEntry {
        path: String::from_str("Left mono camera"),
        channel: ChannelId::LeftMono,
    });
    r.push(ChannelMapEntry {
        path: String::from_str("Right mono camera"),
        channel: ChannelId::RightMono,
    });
    r.push(ChannelMapEntry {
        path: String::from_str("right mono camera/depth"),
        channel: ChannelId::DepthImage,
    });
    r.push(ChannelMapEntry {
        path: String::from_str("world/point_cloud"),
        channel: ChannelId::PointCloud,
    });
    proof {
        assert(cmap_views(r@) =~= spec_default_channel_map());
    }
    r
}

/// A fresh session, before any traffic.
pub open spec fn spec_initial_state() -> StateView {
    StateView {
        devices_available: None,
        selected_device: Device { id: NO_DEVICE },
        pending_device: None,
        device_config: DeviceConfigStateView {
            config: spec_default_config(),
            update_in_progress: false,
        },
        subscriptions: spec_all_subscriptions(),
        backend_comms: BackendCommChannelView {
            outbound: Seq::empty(),
            inbound: Seq::empty(),
            connected: false,
            shut_down: false,
        },
        poll_last: Some(0u64),
        neural_networks: spec_default_networks(),
        channel_map: spec_default_channel_map(),
    }
}

impl State {
    /// A fresh session with an injected entity-path table, for collaborators
    /// with different path mappings.
    pub fn new_with_channel_map(channel_map: Vec<ChannelMapEntry>) -> (r: State)
        ensures
            r@ == (StateView { channel_map: cmap_views(channel_map@), ..spec_initial_state() }),
    {
        let r = State {
            devices_available: None,
            selected_device: Device::default(),
            pending_device: None,
            device_config: DeviceConfigState::default(),
            subscriptions: all_subscriptions(),
            backend_comms: BackendCommChannel::default(),
            poll_last: Some(0),
            epoch: clock_now(),
            neural_networks: default_neural_networks(),
            channel_map,
        };
        proof {
            assert(r@ =~= (StateView {
                channel_map: cmap_views(r.channel_map@),
                ..spec_initial_state()
            }));
        }
        r
    }
}

impl Default for State {
    fn default() -> (r: Self)
        ensures
            r@ == spec_initial_state(),
    {
        let r = State::new_with_channel_map(default_channel_map());
        proof {
            assert(r@ =~= spec_initial_state());
        }
        r
    }
}

// ---------------------------------------------------------------------------
// Mutators and reads

fn copy_device_ids(list: &Vec<DeviceId>) -> (r: Vec<DeviceId>)
    ensures
        r@ == list@,
{
    let mut r: Vec<DeviceId> = Vec::new();
    let mut i: usize = 0;
    while i < list.len()
        invariant
            i <= list@.len(),
            r@ == list@.take(i as int),
        decreases list@.len() - i,
    {
        r.push(list[i]);
        proof {
            assert(r@ =~= list@.take(i + 1 as int));
        }
        i = i + 1;
    }
    proof {
        assert(list@.take(list@.len() as int) =~= list@);
    }
    r
}

impl State {
    /// The last-known catalog; a pure read, empty until a `Devices` event
    /// arrives.
    pub fn get_devices(&mut self) -> (r: Vec<DeviceId>)
        ensures
            final(self)@ == old(self)@,
            r@ == match old(self)@.devices_available {
                Some(d) => d,
                None => Seq::<DeviceId>::empty(),
            },
    {
        let r = match &self.devices_available {
            Some(devices) => copy_device_ids(devices),
            None => Vec::new(),
        };
        proof {
            if old(self)@.devices_available is None {
                assert(r@ =~= Seq::<DeviceId>::empty());
            }
        }
        r
    }

    /// Tears the transport down; later sends are dropped and receives are
    /// empty.
    pub fn shutdown(&mut self)
        ensures
            final(self)@ == (StateView {
                backend_comms: BackendCommChannelView { shut_down: true, ..old(self)@.backend_comms },
                ..old(self)@
            }),
    {
        self.backend_comms.shutdown();
        proof {
            assert(self@ =~= (StateView {
                backend_comms: BackendCommChannelView {
                    shut_down: true,
                    ..old(self)@.backend_comms
                },
                ..old(self)@
            }));
        }
    }

    /// Adopts `subscriptions` as the desired set; see
    /// [`spec_set_subscriptions`].
    pub fn set_subscriptions(&mut self, subscriptions: &Vec<ChannelId>)
        ensures
            final(self)@ == spec_set_subscriptions(old(self)@, subscriptions@),
    {
        if channel_set_eq(&self.subscriptions, subscriptions) {
            return;
        }
        self.backend_comms.set_subscriptions(subscriptions);
        self.subscriptions = copy_channels(subscriptions);
        proof {
            assert(self@ =~= spec_set_subscriptions(old(self)@, subscriptions@));
        }
    }

    /// Requests selection of `device_id`; see [`spec_set_device`].
    pub fn set_device(&mut self, device_id: DeviceId)
        ensures
            final(self)@ == spec_set_device(old(self)@, device_id),
    {
        if self.selected_device.id == device_id {
            return;
        }
        let pending_same = match self.pending_device {
            Some(p) => p == device_id,
            None => false,
        };
        if pending_same {
            return;
        }
        self.backend_comms.set_device(device_id);
        self.pending_device = Some(device_id);
        proof {
            assert(self@ =~= spec_set_device(old(self)@, device_id));
        }
    }

    /// Pushes a candidate configuration; see [`spec_set_device_config`].
    /// The caller's candidate is normalized in place whenever a push is
    /// permitted.
    pub fn set_device_config(&mut self, config: &mut DeviceConfig)
        ensures
            final(self)@ == spec_set_device_config(old(self)@, old(config)@),
            final(config)@ == if spec_config_push_allowed(old(self)@) {
                spec_normalize_config(old(config)@)
            } else {
                old(config)@
            },
    {
        if !self.backend_comms.is_connected() || self.selected_device.id == NO_DEVICE {
            return;
        }
        normalize_config(config);
        if device_config_eq(config, &self.device_config.config) {
            return;
        }
        self.device_config.config = config.clone();
        self.backend_comms.set_pipeline(&self.device_config.config);
        self.device_config.update_in_progress = true;
        proof {
            assert(self@ =~= spec_set_device_config(old(self)@, old(config)@));
        }
    }

    fn adopt_pipeline(&mut self, config: DeviceConfig)
        ensures
            final(self)@ == spec_adopt_pipeline(old(self)@, config@),
    {
        let mut subs = copy_channels(&self.subscriptions);
        match config.depth {
            Some(d) => {
                push_unique(&mut subs, ChannelId::DepthImage);
                if d.pointcloud.enabled {
                    push_unique(&mut subs, ChannelId::PointCloud);
                }
            },
            None => {},
        }
        proof {
            assert(subs@ == spec_pipeline_subscriptions(old(self)@.subscriptions, config@));
        }
        let depth_present = config.depth.is_some();
        self.device_config.config = config;
        self.device_config.config.depth_enabled = depth_present;
        self.set_subscriptions(&subs);
        self.device_config.update_in_progress = false;
        proof {
            assert(self@ =~= spec_adopt_pipeline(old(self)@, config@));
        }
    }

    fn adopt_device(&mut self, device: Device)
        ensures
            final(self)@ == spec_adopt_device(old(self)@, device),
    {
        if device.id == NO_DEVICE {
            self.selected_device = device;
            self.pending_device = None;
            self.device_config.update_in_progress = false;
        } else {
            self.selected_device = device;
            self.pending_device = None;
            self.backend_comms.set_subscriptions(&self.subscriptions);
            self.backend_comms.set_pipeline(&self.device_config.config);
            self.device_config.update_in_progress = true;
        }
        proof {
            assert(self@ =~= spec_adopt_device(old(self)@, device));
        }
    }

    fn handle_error(&mut self, error: crate::config::Error)
        ensures
            final(self)@ == spec_handle_error(old(self)@, error@),
    {
        self.device_config.update_in_progress = false;
        match error.action {
            ErrorAction::NoAction => {},
            ErrorAction::FullReset => {
                self.set_device(NO_DEVICE);
            },
        }
        proof {
            assert(self@ =~= spec_handle_error(old(self)@, error@));
        }
    }

    fn dispatch(&mut self, message: BackWsMessage)
        ensures
            final(self)@ == spec_dispatch(old(self)@, message@),
    {
        match message.data {
            WsMessageData::Subscriptions(subs) => {
                self.subscriptions = subs;
                proof {
                    assert(self@ =~= spec_dispatch(old(self)@, message@));
                }
            },
            WsMessageData::Devices(ids) => {
                self.devices_available = Some(ids);
                proof {
                    assert(self@ =~= spec_dispatch(old(self)@, message@));
                }
            },
            WsMessageData::Device(d) => {
                self.adopt_device(d);
            },
            WsMessageData::Pipeline(c) => {
                self.adopt_pipeline(c);
            },
            WsMessageData::Error(e) => {
                self.handle_error(e);
            },
        }
    }

    fn poll(&mut self, now: u64)
        ensures
            final(self)@ == spec_poll(old(self)@, now),
    {
        match self.poll_last {
            None => {
                self.poll_last = Some(now);
                proof {
                    assert(self@ =~= spec_poll(old(self)@, now));
                }
            },
            Some(p) => {
                if now >= p && now - p >= 2000 {
                    if self.selected_device.id == NO_DEVICE {
                        self.backend_comms.get_devices();
                    }
                    self.poll_last = Some(now);
                }
                proof {
                    assert(self@ =~= spec_poll(old(self)@, now));
                }
            },
        }
    }

    fn channel_wanted(&self, visible: &Vec<EntityVisibility>, c: ChannelId) -> (r: bool)
        ensures
            r == spec_channel_wanted(
                vis_views(visible@),
                self@.channel_map,
                self@.device_config.config,
                self@.subscriptions,
                c,
            ),
    {
        let votes = channel_votes(visible, &self.channel_map, c);
        let possible = channel_possible(c, &self.device_config.config);
        possible && (votes.1 || (!votes.0 && contains_channel(&self.subscriptions, c)))
    }

    /// The desired subscription set derived from the given visibility
    /// reports, the current configuration and the currently active set; see
    /// [`spec_desired_channels`].
    pub fn desired_subscriptions(&self, visible_space_views: &Vec<EntityVisibility>) -> (r: Vec<
        ChannelId,
    >)
        ensures
            r@ == spec_desired_channels(
                vis_views(visible_space_views@),
                self@.channel_map,
                self@.device_config.config,
                self@.subscriptions,
            ),
    {
        let ghost vs = vis_views(visible_space_views@);
        let ghost cm = self@.channel_map;
        let ghost cfg = self@.device_config.config;
        let ghost cur = self@.subscriptions;
        let mut r: Vec<ChannelId> = Vec::new();
        if self.channel_wanted(visible_space_views, ChannelId::ColorImage) {
            r.push(ChannelId::ColorImage);
        }
        proof {
            assert(r@ =~= opt_chan(
                spec_channel_wanted(vs, cm, cfg, cur, ChannelId::ColorImage),
                ChannelId::ColorImage,
            ));
        }
        let ghost r1 = r@;
        if self.channel_wanted(visible_space_views, ChannelId::LeftMono) {
            r.push(ChannelId::LeftMono);
        }
        proof {
            assert(r@ =~= r1 + opt_chan(
                spec_channel_wanted(vs, cm, cfg, cur, ChannelId::LeftMono),
                ChannelId::LeftMono,
            ));
        }
        let ghost r2 = r@;
        if self.channel_wanted(visible_space_views, ChannelId::RightMono) {
            r.push(ChannelId::RightMono);
        }
        proof {
            assert(r@ =~= r2 + opt_chan(
                spec_channel_wanted(vs, cm, cfg, cur, ChannelId::RightMono),
                ChannelId::RightMono,
            ));
        }
        let ghost r3 = r@;
        if self.channel_wanted(visible_space_views, ChannelId::DepthImage) {
            r.push(ChannelId::DepthImage);
        }
        proof {
            assert(r@ =~= r3 + opt_chan(
                spec_channel_wanted(vs, cm, cfg, cur, ChannelId::DepthImage),
                ChannelId::DepthImage,
            ));
        }
        let ghost r4 = r@;
        if self.channel_wanted(visible_space_views, ChannelId::PointCloud) {
            r.push(ChannelId::PointCloud);
        }
        proof {
            assert(r@ =~= r4 + opt_chan(
                spec_channel_wanted(vs, cm, cfg, cur, ChannelId::PointCloud),
                ChannelId::PointCloud,
            ));
            assert(r@ =~= spec_desired_channels(vs, cm, cfg, cur));
        }
        r
    }

    /// Recomputes the desired subscription set from the visible views and
    /// adopts it; only an actual change reaches the backend.
    pub fn set_subscriptions_from_space_views(
        &mut self,
        visible_space_views: &Vec<EntityVisibility>,
    )
        ensures
            final(self)@ == spec_set_subscriptions(
                old(self)@,
                spec_desired_channels(
                    vis_views(visible_space_views@),
                    old(self)@.channel_map,
                    old(self)@.device_config.config,
                    old(self)@.subscriptions,
                ),
            ),
    {
        let desired = self.desired_subscriptions(visible_space_views);
        self.set_subscriptions(&desired);
    }

    /// The entity paths whose channels the current configuration rules out;
    /// see [`spec_entities_to_remove`].
    pub fn entities_to_remove(&mut self, entity_paths: &Vec<String>) -> (r: Vec<String>)
        ensures
            final(self)@ == old(self)@,
            path_views(r@) == spec_entities_to_remove(
                path_views(entity_paths@),
                old(self)@.channel_map,
                old(self)@.device_config.config,
            ),
    {
        let ghost cm = self@.channel_map;
        let ghost cfg = self@.device_config.config;
        let ghost pred = |p: Seq<char>| spec_path_removed(cm, cfg, p);
        let ghost pv = path_views(entity_paths@);
        let mut removes: Vec<ChannelId> = Vec::new();
        match self.device_config.config.depth {
            Some(d) => if !d.pointcloud.enabled {
                removes.push(ChannelId::PointCloud);
            },
            None => {
                removes.push(ChannelId::DepthImage);
            },
        }
        proof {
            assert(removes@ =~= spec_remove_channels(cfg));
            assert(pv.take(0).filter(pred) =~= Seq::<Seq<char>>::empty());
        }
        let mut out: Vec<String> = Vec::new();
        let mut i: usize = 0;
        while i < entity_paths.len()
            invariant
                i <= entity_paths@.len(),
                self@.channel_map == cm,
                self@.device_config.config == cfg,
                removes@ == spec_remove_channels(cfg),
                pred == (|p: Seq<char>| spec_path_removed(cm, cfg, p)),
                pv == path_views(entity_paths@),
                pv.len() == entity_paths@.len(),
                forall|j: int| 0 <= j < entity_paths@.len() ==> pv[j] == entity_paths@[j]@,
                path_views(out@) == pv.take(i as int).filter(pred),
            decreases entity_paths@.len() - i,
        {
            let removed = match lookup_channel(&self.channel_map, entity_paths[i].as_str()) {
                Some(c) => contains_channel(&removes, c),
                None => false,
            };
            proof {
                assert(removed == pred(pv[i as int]));
            }
            let ghost prev = path_views(out@);
            if removed {
                out.push(entity_paths[i].clone());
                proof {
                    assert(path_views(out@) =~= prev.push(pv[i as int]));
                }
            }
            proof {
                let t = pv.take(i + 1);
                assert(t.drop_last() =~= pv.take(i as int));
                assert(t.last() == pv[i as int]);
                lemma_filter_one(t, pred);
            }
            i = i + 1;
        }
        proof {
            assert(pv.take(pv.len() as int) =~= pv);
        }
        out
    }

    /// One tick against an explicit clock reading; see [`spec_update`].
    pub fn update_at(&mut self, now: u64)
        ensures
            final(self)@ == spec_update(old(self)@, now),
    {
        let event = self.backend_comms.receive();
        match event {
            Some(m) => {
                self.dispatch(m);
            },
            None => {
                proof {
                    assert(self@ =~= (StateView {
                        backend_comms: spec_receive(old(self)@.backend_comms).0,
                        ..old(self)@
                    }));
                }
            },
        }
        self.poll(now);
    }

    /// One tick against the session clock. The clock reading is outside the
    /// library's control; whatever it is, the tick is one `spec_update`
    /// step at that instant.
    pub fn update(&mut self)
        ensures
            exists|now: u64| final(self)@ == spec_update(old(self)@, now),
    {
        let now = elapsed_ms(&self.epoch);
        self.update_at(now);
        proof {
            assert(self@ == spec_update(old(self)@, now));
        }
    }
}

} // verus!
