//! The subscription reconciler's inputs and desired-set computation.
//!
//! The desired set of data channels is derived from two independent
//! signals: which views are visible in the user interface, and which
//! channels the current device configuration makes possible. A channel
//! whose visibility nobody reports — a view not yet laid out — is retained
//! if it is already active, so subscriptions do not flap during layout
//! churn.

use vstd::prelude::*;

use crate::channel::{spec_channel_possible, ChannelId};
use crate::codec::str_eq;
use crate::config::DeviceConfigView;

verus! {

/// One (entity path, visibility) pair, as the view layer reports it.
pub struct EntityVisibility {
    pub path: String,
    pub visible: bool,
}

#[verifier::ext_equal]
pub struct EntityVisibilityView {
    pub path: Seq<char>,
    pub visible: bool,
}

impl View for EntityVisibility {
    type V = EntityVisibilityView;

    open spec fn view(&self) -> EntityVisibilityView {
        EntityVisibilityView { path: self.path@, visible: self.visible }
    }
}

/// One entry of the entity-path-to-channel lookup table. The table is fixed
/// configuration, injected at session construction.
pub struct ChannelMapEntry {
    pub path: String,
    pub channel: ChannelId,
}

#[verifier::ext_equal]
pub struct ChannelMapEntryView {
    pub path: Seq<char>,
    pub channel: ChannelId,
}

impl View for ChannelMapEntry {
    type V = ChannelMapEntryView;

    open spec fn view(&self) -> ChannelMapEntryView {
        ChannelMapEntryView { path: self.path@, channel: self.channel }
    }
}

pub open spec fn vis_views(v: Seq<EntityVisibility>) -> Seq<EntityVisibilityView> {
    v.map_values(|e: EntityVisibility| e@)
}

pub open spec fn cmap_views(v: Seq<ChannelMapEntry>) -> Seq<ChannelMapEntryView> {
    v.map_values(|e: ChannelMapEntry| e@)
}

/// The channel the first matching table entry assigns to `path`.
pub open spec fn spec_lookup_channel(cmap: Seq<ChannelMapEntryView>, path: Seq<char>) -> Option<ChannelId>
    decreases cmap.len(),
{
    if cmap.len() == 0 {
        None
    } else if cmap[0].path == path {
        Some(cmap[0].channel)
    } else {
        spec_lookup_channel(cmap.skip(1), path)
    }
}

pub fn lookup_channel(cmap: &Vec<ChannelMapEntry>, path: &str) -> (r: Option<ChannelId>)
    ensures
        r == spec_lookup_channel(cmap_views(cmap@), path@),
{
    let ghost cm = cmap_views(cmap@);
    proof {
        assert(cm.skip(0) =~= cm);
    }
    let mut i: usize = 0;
    while i < cmap.len()
        invariant
            i <= cm.len(),
            cm == cmap_views(cmap@),
            cm.len() == cmap@.len(),
            forall|j: int| 0 <= j < cmap@.len() ==> cm[j] == cmap@[j]@,
            spec_lookup_channel(cm, path@) == spec_lookup_channel(cm.skip(i as int), path@),
        decreases cmap@.len() - i,
    {
        proof {
            assert(cm.skip(i as int)[0] == cm[i as int]);
        }
        if str_eq(cmap[i].path.as_str(), path) {
            let found = cmap[i].channel;
            proof {
                assert(cm[i as int].path == path@);
                assert(spec_lookup_channel(cm.skip(i as int), path@) == Some(cm[i as int].channel));
                assert(found == cm[i as int].channel);
                assert(spec_lookup_channel(cm, path@) == Some(found));
            }
            return Some(found);
        }
        proof {
            assert(cm.skip(i as int).skip(1) =~= cm.skip(i + 1));
        }
        i = i + 1;
    }
    None
}

/// The `j`-th visibility report concerns channel `c`.
pub open spec fn vote_is(
    vis: Seq<EntityVisibilityView>,
    cmap: Seq<ChannelMapEntryView>,
    j: int,
    c: ChannelId,
) -> bool {
    spec_lookup_channel(cmap, vis[j].path) == Some(c)
}

/// Some report concerns `c` at all: its visibility can be determined.
pub open spec fn spec_has_vote(
    vis: Seq<EntityVisibilityView>,
    cmap: Seq<ChannelMapEntryView>,
    c: ChannelId,
) -> bool {
    exists|j: int| 0 <= j < vis.len() && #[trigger] vote_is(vis, cmap, j, c)
}

/// Some visible view consumes `c`.
pub open spec fn spec_votes_true(
    vis: Seq<EntityVisibilityView>,
    cmap: Seq<ChannelMapEntryView>,
    c: ChannelId,
) -> bool {
    exists|j: int| 0 <= j < vis.len() && #[trigger] vote_is(vis, cmap, j, c) && vis[j].visible
}

/// Whether channel `c` belongs in the desired set: it must be possible
/// under the configuration, and either some visible view wants it, or
/// nobody reports on it and it is already active.
pub open spec fn spec_channel_wanted(
    vis: Seq<EntityVisibilityView>,
    cmap: Seq<ChannelMapEntryView>,
    config: DeviceConfigView,
    current: Seq<ChannelId>,
    c: ChannelId,
) -> bool {
    spec_channel_possible(c, config) && (spec_votes_true(vis, cmap, c) || (!spec_has_vote(
        vis,
        cmap,
        c,
    ) && current.contains(c)))
}

pub open spec fn opt_chan(b: bool, c: ChannelId) -> Seq<ChannelId> {
    if b {
        seq![c]
    } else {
        Seq::empty()
    }
}

/// The desired set, one candidate channel at a time, in the fixed candidate
/// order.
pub open spec fn spec_desired_channels(
    vis: Seq<EntityVisibilityView>,
    cmap: Seq<ChannelMapEntryView>,
    config: DeviceConfigView,
    current: Seq<ChannelId>,
) -> Seq<ChannelId> {
    opt_chan(spec_channel_wanted(vis, cmap, config, current, ChannelId::ColorImage), ChannelId::ColorImage)
        + opt_chan(spec_channel_wanted(vis, cmap, config, current, ChannelId::LeftMono), ChannelId::LeftMono)
        + opt_chan(spec_channel_wanted(vis, cmap, config, current, ChannelId::RightMono), ChannelId::RightMono)
        + opt_chan(spec_channel_wanted(vis, cmap, config, current, ChannelId::DepthImage), ChannelId::DepthImage)
        + opt_chan(spec_channel_wanted(vis, cmap, config, current, ChannelId::PointCloud), ChannelId::PointCloud)
}

proof fn lemma_add_contains<A>(a: Seq<A>, b: Seq<A>, x: A)
    ensures
        (a + b).contains(x) <==> a.contains(x) || b.contains(x),
{
    if a.contains(x) {
        let i = choose|i: int| 0 <= i < a.len() && a[i] == x;
        assert((a + b)[i] == x);
    }
    if b.contains(x) {
        let i = choose|i: int| 0 <= i < b.len() && b[i] == x;
        assert((a + b)[a.len() + i] == x);
    }
    if (a + b).contains(x) {
        let i = choose|i: int| 0 <= i < (a + b).len() && (a + b)[i] == x;
        if i < a.len() {
            assert(a[i] == x);
        } else {
            assert(b[i - a.len()] == x);
        }
    }
}

proof fn lemma_opt_chan_contains(b: bool, c: ChannelId, x: ChannelId)
    ensures
        opt_chan(b, c).contains(x) <==> (b && x == c),
{
    if b {
        assert(opt_chan(b, c)[0] == c);
    }
    if opt_chan(b, c).contains(x) {
        let i = choose|i: int| 0 <= i < opt_chan(b, c).len() && opt_chan(b, c)[i] == x;
        assert(i == 0);
    }
}

/// Membership in the desired set is exactly `spec_channel_wanted`.
pub proof fn lemma_desired_contains(
    vis: Seq<EntityVisibilityView>,
    cmap: Seq<ChannelMapEntryView>,
    config: DeviceConfigView,
    current: Seq<ChannelId>,
    c: ChannelId,
)
    ensures
        spec_desired_channels(vis, cmap, config, current).contains(c) == spec_channel_wanted(
            vis,
            cmap,
            config,
            current,
            c,
        ),
{
    let w1 = spec_channel_wanted(vis, cmap, config, current, ChannelId::ColorImage);
    let w2 = spec_channel_wanted(vis, cmap, config, current, ChannelId::LeftMono);
    let w3 = spec_channel_wanted(vis, cmap, config, current, ChannelId::RightMono);
    let w4 = spec_channel_wanted(vis, cmap, config, current, ChannelId::DepthImage);
    let w5 = spec_channel_wanted(vis, cmap, config, current, ChannelId::PointCloud);
    let o1 = opt_chan(w1, ChannelId::ColorImage);
    let o2 = opt_chan(w2, ChannelId::LeftMono);
    let o3 = opt_chan(w3, ChannelId::RightMono);
    let o4 = opt_chan(w4, ChannelId::DepthImage);
    let o5 = opt_chan(w5, ChannelId::PointCloud);
    lemma_add_contains(o1, o2, c);
    lemma_add_contains(o1 + o2, o3, c);
    lemma_add_contains(o1 + o2 + o3, o4, c);
    lemma_add_contains(o1 + o2 + o3 + o4, o5, c);
    lemma_opt_chan_contains(w1, ChannelId::ColorImage, c);
    lemma_opt_chan_contains(w2, ChannelId::LeftMono, c);
    lemma_opt_chan_contains(w3, ChannelId::RightMono, c);
    lemma_opt_chan_contains(w4, ChannelId::DepthImage, c);
    lemma_opt_chan_contains(w5, ChannelId::PointCloud, c);
    if c == ChannelId::PinholeCamera {
        assert(!spec_channel_wanted(vis, cmap, config, current, c));
    }
}

/// Channels whose entities should leave the viewer under `config`: the
/// point cloud when the depth stage does not produce one, and the depth
/// image when there is no depth stage at all.
pub open spec fn spec_remove_channels(config: DeviceConfigView) -> Seq<ChannelId> {
    match config.depth {
        Some(d) => if !d.pointcloud.enabled {
            seq![ChannelId::PointCloud]
        } else {
            Seq::empty()
        },
        None => seq![ChannelId::DepthImage],
    }
}

/// Whether the entity under `path` feeds a channel that `config` rules out.
pub open spec fn spec_path_removed(
    cmap: Seq<ChannelMapEntryView>,
    config: DeviceConfigView,
    p: Seq<char>,
) -> bool {
    match spec_lookup_channel(cmap, p) {
        Some(c) => spec_remove_channels(config).contains(c),
        None => false,
    }
}

/// The entity paths to drop, in their given order.
pub open spec fn spec_entities_to_remove(
    paths: Seq<Seq<char>>,
    cmap: Seq<ChannelMapEntryView>,
    config: DeviceConfigView,
) -> Seq<Seq<char>> {
    paths.filter(|p: Seq<char>| spec_path_removed(cmap, config, p))
}

/// One unfolding of `Seq::filter` from the back.
pub proof fn lemma_filter_one<A>(s: Seq<A>, pred: spec_fn(A) -> bool)
    requires
        s.len() > 0,
    ensures
        s.filter(pred) == if pred(s.last()) {
            s.drop_last().filter(pred).push(s.last())
        } else {
            s.drop_last().filter(pred)
        },
{
    reveal(Seq::filter);
}

/// Both exists-votes for one channel, by one pass over the reports.
pub fn channel_votes(
    visible: &Vec<EntityVisibility>,
    cmap: &Vec<ChannelMapEntry>,
    c: ChannelId,
) -> (r: (bool, bool))
    ensures
        r.0 == spec_has_vote(vis_views(visible@), cmap_views(cmap@), c),
        r.1 == spec_votes_true(vis_views(visible@), cmap_views(cmap@), c),
{
    let ghost vs = vis_views(visible@);
    let ghost cm = cmap_views(cmap@);
    let mut has: bool = false;
    let mut yes: bool = false;
    let mut i: usize = 0;
    while i < visible.len()
        invariant
            i <= vs.len(),
            vs.len() == visible@.len(),
            cm == cmap_views(cmap@),
            forall|j: int| 0 <= j < visible@.len() ==> vs[j] == visible@[j]@,
            has == exists|j: int| 0 <= j < i && #[trigger] vote_is(vs, cm, j, c),
            yes == exists|j: int| 0 <= j < i && #[trigger] vote_is(vs, cm, j, c) && vs[j].visible,
        decreases visible@.len() - i,
    {
        let hit = match lookup_channel(cmap, visible[i].path.as_str()) {
            Some(found) => found == c,
            None => false,
        };
        if hit {
            proof {
                assert(vote_is(vs, cm, i as int, c));
            }
            has = true;
            if visible[i].visible {
                yes = true;
            }
        }
        i = i + 1;
    }
    (has, yes)
}

} // verus!
