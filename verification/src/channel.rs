//! Data channels a client can subscribe to, and small set operations on
//! channel lists. A subscription set is kept as a `Vec<ChannelId>` whose
//! order is irrelevant: every contract speaks of which channels the list
//! contains, never of their positions.

use vstd::prelude::*;

use crate::config::DeviceConfigView;

verus! {

/// A named category of sensor data stream. The set is closed: reconciliation
/// treats unknown wire tags as inert.
#[derive(Clone, Copy, PartialEq, Eq, Structural, Debug, Hash)]
pub enum ChannelId {
    ColorImage,
    LeftMono,
    RightMono,
    DepthImage,
    PointCloud,
    PinholeCamera,
}

/// The channels a session subscribes to by default, and the only ones the
/// reconciler ever considers.
pub open spec fn spec_all_subscriptions() -> Seq<ChannelId> {
    seq![
        ChannelId::ColorImage,
        ChannelId::LeftMono,
        ChannelId::RightMono,
        ChannelId::DepthImage,
        ChannelId::PointCloud,
    ]
}

pub fn all_subscriptions() -> (r: Vec<ChannelId>)
    ensures
        r@ == spec_all_subscriptions(),
{
    let r = vec![
        ChannelId::ColorImage,
        ChannelId::LeftMono,
        ChannelId::RightMono,
        ChannelId::DepthImage,
        ChannelId::PointCloud,
    ];
    proof {
        assert(r@ =~= spec_all_subscriptions());
    }
    r
}

/// Whether `list` holds `c`.
pub fn contains_channel(list: &Vec<ChannelId>, c: ChannelId) -> (r: bool)
    ensures
        r == list@.contains(c),
{
    let mut i: usize = 0;
    while i < list.len()
        invariant
            i <= list@.len(),
            forall|j: int| 0 <= j < i ==> list@[j] != c,
        decreases list@.len() - i,
    {
        if list[i] == c {
            return true;
        }
        i = i + 1;
    }
    false
}

/// Two channel lists name the same set of channels, in any order and with
/// any multiplicity.
pub open spec fn same_channels(a: Seq<ChannelId>, b: Seq<ChannelId>) -> bool {
    forall|c: ChannelId| a.contains(c) <==> b.contains(c)
}

/// Whether `a` and `b` are set-equal.
pub fn channel_set_eq(a: &Vec<ChannelId>, b: &Vec<ChannelId>) -> (r: bool)
    ensures
        r == same_channels(a@, b@),
{
    let mut i: usize = 0;
    while i < a.len()
        invariant
            i <= a@.len(),
            forall|j: int| 0 <= j < i ==> b@.contains(a@[j]),
        decreases a@.len() - i,
    {
        if !contains_channel(b, a[i]) {
            return false;
        }
        i = i + 1;
    }
    let mut i: usize = 0;
    while i < b.len()
        invariant
            i <= b@.len(),
            forall|j: int| 0 <= j < a@.len() ==> b@.contains(a@[j]),
            forall|j: int| 0 <= j < i ==> a@.contains(b@[j]),
        decreases b@.len() - i,
    {
        if !contains_channel(a, b[i]) {
            return false;
        }
        i = i + 1;
    }
    true
}

/// Appends `c` unless the list already holds it.
pub fn push_unique(list: &mut Vec<ChannelId>, c: ChannelId)
    ensures
        final(list)@ == if old(list)@.contains(c) {
            old(list)@
        } else {
            old(list)@.push(c)
        },
{
    if !contains_channel(list, c) {
        list.push(c);
    }
}

/// An element-wise copy whose view is the argument's view.
pub fn copy_channels(list: &Vec<ChannelId>) -> (r: Vec<ChannelId>)
    ensures
        r@ == list@,
{
    let mut r: Vec<ChannelId> = Vec::new();
    let mut i: usize = 0;
    while i < list.len()
        invariant
            i <= list@.len(),
            r@ == list@.take(i as int),
        decreases list@.len() - i,
    {
        r.push(list[i]);
        proof {
            assert(r@ =~= list@.take(i + 1 as int));
        }
        i = i + 1;
    }
    proof {
        assert(list@.take(list@.len() as int) =~= list@);
    }
    r
}

/// Whether a channel can carry data at all under the given configuration.
/// Depth data needs a depth stage; a point cloud additionally needs the
/// point-cloud flag of that stage.
pub open spec fn spec_channel_possible(c: ChannelId, config: DeviceConfigView) -> bool {
    match c {
        ChannelId::ColorImage => true,
        ChannelId::LeftMono => true,
        ChannelId::RightMono => true,
        ChannelId::DepthImage => config.depth is Some,
        ChannelId::PointCloud => config.depth matches Some(d) && d.pointcloud.enabled,
        ChannelId::PinholeCamera => false,
    }
}

pub fn channel_possible(c: ChannelId, config: &crate::config::DeviceConfig) -> (r: bool)
    ensures
        r == spec_channel_possible(c, config@),
{
    match c {
        ChannelId::ColorImage => true,
        ChannelId::LeftMono => true,
        ChannelId::RightMono => true,
        ChannelId::DepthImage => config.depth.is_some(),
        ChannelId::PointCloud => match config.depth {
            Some(d) => d.pointcloud.enabled,
            None => false,
        },
        ChannelId::PinholeCamera => false,
    }
}

} // verus!
