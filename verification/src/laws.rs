//! Session laws, stated and proved over the spec-level transitions that
//! every mutator refines.

use vstd::prelude::*;

use crate::channel::{same_channels, ChannelId};
use crate::config::{BoardSocket, DeviceConfigView, DeviceId};
use crate::message::{subscriptions_msg, BackWsMessageView, WsMessageType};
use crate::session::{
    spec_adopt_device, spec_adopt_pipeline, spec_dispatch, spec_pipeline_subscriptions, spec_poll,
    spec_set_device, spec_set_device_config, spec_set_subscriptions, spec_update, StateView,
};
use crate::transport::{spec_receive, spec_send};

verus! {

/// Selecting the same device twice is one transition: the second call
/// changes nothing and sends nothing, whether the first call was a no-op or
/// left the selection request in flight.
pub proof fn lemma_set_device_idempotent(s: StateView, id: DeviceId)
    ensures
        spec_set_device(spec_set_device(s, id), id) == spec_set_device(s, id),
{
    assert(spec_set_device(spec_set_device(s, id), id) =~= spec_set_device(s, id));
}

/// Adopting a subscription set that is already active — set-equal in any
/// order — changes nothing and sends zero commands.
pub proof fn lemma_set_subscriptions_idempotent(s: StateView, subs: Seq<ChannelId>)
    requires
        same_channels(s.subscriptions, subs),
    ensures
        spec_set_subscriptions(s, subs) == s,
{
}

/// Every command a configuration push queues is a `Pipeline` payload whose
/// mono cameras sit on the protocol-fixed board sockets, whatever the
/// caller supplied.
pub proof fn lemma_config_push_sockets(s: StateView, c: DeviceConfigView)
    ensures
        ({
            let out0 = s.backend_comms.outbound;
            let out1 = spec_set_device_config(s, c).backend_comms.outbound;
            &&& out0.len() <= out1.len()
            &&& forall|i: int| 0 <= i < out0.len() ==> out1[i] == out0[i]
            &&& forall|i: int|
                out0.len() <= i < out1.len() ==> ((#[trigger] out1[i]).data matches
                    crate::message::WsMessageDataView::Pipeline(n)
                    && n.left_camera.board_socket == BoardSocket::LEFT
                    && n.right_camera.board_socket == BoardSocket::RIGHT)
        }),
{
}

/// Selecting a device that is neither selected nor already requested, over
/// a live channel, queues exactly one `Device` command — and changes the
/// selection itself not at all: the selection becomes authoritative only
/// when the backend's `Device` echo is dispatched.
pub proof fn lemma_set_device_command(s: StateView, id: DeviceId)
    requires
        s.selected_device.id != id,
        s.pending_device != Some(id),
        !s.backend_comms.shut_down,
    ensures
        spec_set_device(s, id).backend_comms.outbound == s.backend_comms.outbound.push(
            crate::message::device_msg(id),
        ),
        spec_set_device(s, id).selected_device == s.selected_device,
        spec_set_device(s, id).pending_device == Some(id),
{
}

/// A `Device` echo for a real device is the one place the selection
/// changes; the fresh device then receives the current subscription set and
/// configuration, and a push is pending until its `Pipeline` echo.
pub proof fn lemma_device_echo_repush(s: StateView, d: crate::config::Device)
    requires
        d.id != crate::config::NO_DEVICE,
        !s.backend_comms.shut_down,
    ensures
        ({
            let s2 = spec_adopt_device(s, d);
            &&& s2.selected_device == d
            &&& s2.pending_device is None
            &&& s2.device_config.update_in_progress == true
            &&& s2.backend_comms.outbound == s.backend_comms.outbound.push(
                subscriptions_msg(s.subscriptions),
            ).push(crate::message::pipeline_msg(s.device_config.config))
        }),
{
}

/// A deselection echo resolves the pending push and sends nothing: there is
/// no device left to push to.
pub proof fn lemma_deselection_echo(s: StateView, d: crate::config::Device)
    requires
        d.id == crate::config::NO_DEVICE,
    ensures
        ({
            let s2 = spec_adopt_device(s, d);
            &&& s2.selected_device == d
            &&& s2.pending_device is None
            &&& s2.device_config.update_in_progress == false
            &&& s2.backend_comms.outbound == s.backend_comms.outbound
        }),
{
}

/// A `Pipeline` echo that enables depth leaves `DepthImage` in the
/// subscription set; if it was not active before and the transport is up,
/// the queued `Subscriptions` command carries it to the backend.
pub proof fn lemma_pipeline_adds_depth(s: StateView, c: DeviceConfigView)
    requires
        c.depth is Some,
    ensures
        spec_adopt_pipeline(s, c).subscriptions.contains(ChannelId::DepthImage),
        !s.subscriptions.contains(ChannelId::DepthImage) && !s.backend_comms.shut_down
            ==> spec_adopt_pipeline(s, c).backend_comms.outbound.last() == subscriptions_msg(
            spec_pipeline_subscriptions(s.subscriptions, c),
        ) && spec_pipeline_subscriptions(s.subscriptions, c).contains(ChannelId::DepthImage),
{
    let subs = spec_pipeline_subscriptions(s.subscriptions, c);
    if s.subscriptions.contains(ChannelId::DepthImage) {
        let i = choose|i: int|
            0 <= i < s.subscriptions.len() && s.subscriptions[i] == ChannelId::DepthImage;
        assert(subs[i] == ChannelId::DepthImage);
        assert(subs.contains(ChannelId::DepthImage));
    } else {
        let s1 = s.subscriptions.push(ChannelId::DepthImage);
        assert(s1[s.subscriptions.len() as int] == ChannelId::DepthImage);
        assert(s1.contains(ChannelId::DepthImage));
        if subs != s1 {
            assert(subs == s1.push(ChannelId::PointCloud));
            assert(subs[s.subscriptions.len() as int] == ChannelId::DepthImage);
        }
        assert(subs.contains(ChannelId::DepthImage));
        assert(!same_channels(s.subscriptions, subs));
    }
    if spec_adopt_pipeline(s, c).subscriptions == s.subscriptions {
        assert(same_channels(s.subscriptions, subs) || spec_adopt_pipeline(s, c).subscriptions
            == subs);
    }
}

// ---------------------------------------------------------------------------
// Catalog poll rate limit

/// How many catalog pull requests a queue holds.
pub open spec fn spec_devices_pulls(out: Seq<BackWsMessageView>) -> int
    decreases out.len(),
{
    if out.len() == 0 {
        0
    } else {
        spec_devices_pulls(out.drop_last()) + if out.last().kind == WsMessageType::Devices {
            1int
        } else {
            0int
        }
    }
}

proof fn lemma_pulls_push(out: Seq<BackWsMessageView>, m: BackWsMessageView)
    ensures
        spec_devices_pulls(out.push(m)) == spec_devices_pulls(out) + if m.kind
            == WsMessageType::Devices {
            1int
        } else {
            0int
        },
{
    assert(out.push(m).drop_last() =~= out);
    assert(out.push(m).last() == m);
}

proof fn lemma_send_pulls(t: crate::transport::BackendCommChannelView, m: BackWsMessageView)
    ensures
        spec_devices_pulls(spec_send(t, m).outbound) == spec_devices_pulls(t.outbound) + if !t.shut_down
            && m.kind == WsMessageType::Devices {
            1int
        } else {
            0int
        },
{
    if !t.shut_down {
        lemma_pulls_push(t.outbound, m);
    }
}

/// Dispatching an inbound event never queues a catalog pull, and never
/// touches the poll clock.
proof fn lemma_dispatch_pulls(s: StateView, m: BackWsMessageView)
    ensures
        spec_devices_pulls(spec_dispatch(s, m).backend_comms.outbound) == spec_devices_pulls(
            s.backend_comms.outbound,
        ),
        spec_dispatch(s, m).poll_last == s.poll_last,
{
    match m.data {
        crate::message::WsMessageDataView::Subscriptions(_) => {},
        crate::message::WsMessageDataView::Devices(_) => {},
        crate::message::WsMessageDataView::Device(d) => {
            if d.id != crate::config::NO_DEVICE {
                let t1 = spec_send(s.backend_comms, subscriptions_msg(s.subscriptions));
                lemma_send_pulls(s.backend_comms, subscriptions_msg(s.subscriptions));
                lemma_send_pulls(t1, crate::message::pipeline_msg(s.device_config.config));
            }
        },
        crate::message::WsMessageDataView::Pipeline(c) => {
            let subs = spec_pipeline_subscriptions(s.subscriptions, c);
            lemma_send_pulls(s.backend_comms, subscriptions_msg(subs));
        },
        crate::message::WsMessageDataView::Error(_) => {
            lemma_send_pulls(s.backend_comms, crate::message::device_msg(crate::config::NO_DEVICE));
        },
    }
}

/// Whether one poll step at `now` issues a catalog pull.
pub open spec fn spec_poll_pulls(s: StateView, now: u64) -> bool {
    &&& s.poll_last matches Some(p) && now >= p && now - p >= 2000
    &&& s.selected_device.id == crate::config::NO_DEVICE
    &&& !s.backend_comms.shut_down
}

proof fn lemma_poll_pulls(s: StateView, now: u64)
    ensures
        spec_devices_pulls(spec_poll(s, now).backend_comms.outbound) == spec_devices_pulls(
            s.backend_comms.outbound,
        ) + if spec_poll_pulls(s, now) {
            1int
        } else {
            0int
        },
        spec_poll(s, now).poll_last == match s.poll_last {
            None => Some(now),
            Some(p) => if now >= p && now - p >= 2000 {
                Some(now)
            } else {
                Some(p)
            },
        },
{
    match s.poll_last {
        None => {},
        Some(p) => {
            if now >= p && now - p >= 2000 && s.selected_device.id == crate::config::NO_DEVICE {
                lemma_send_pulls(s.backend_comms, crate::message::devices_pull_msg());
            }
        },
    }
}

proof fn lemma_update_pulls(s: StateView, now: u64)
    ensures
        ({
            let s2 = spec_update(s, now);
            let r = spec_receive(s.backend_comms);
            let s1 = StateView { backend_comms: r.0, ..s };
            let sd = match r.1 {
                Some(m) => spec_dispatch(s1, m),
                None => s1,
            };
            &&& spec_devices_pulls(s2.backend_comms.outbound) == spec_devices_pulls(
                s.backend_comms.outbound,
            ) + if spec_poll_pulls(sd, now) {
                1int
            } else {
                0int
            }
            &&& sd.poll_last == s.poll_last
            &&& s2.poll_last == match sd.poll_last {
                None => Some(now),
                Some(p) => if now >= p && now - p >= 2000 {
                    Some(now)
                } else {
                    Some(p)
                },
            }
        }),
{
    let r = spec_receive(s.backend_comms);
    let s1 = StateView { backend_comms: r.0, ..s };
    match r.1 {
        Some(m) => {
            lemma_dispatch_pulls(s1, m);
            lemma_poll_pulls(spec_dispatch(s1, m), now);
        },
        None => {
            lemma_poll_pulls(s1, now);
        },
    }
}

/// Two ticks less than two seconds apart issue at most one catalog pull
/// between them, whatever events arrive in the meantime.
pub proof fn lemma_poll_rate(s: StateView, t1: u64, t2: u64)
    requires
        t1 <= t2,
        t2 - t1 < 2000,
    ensures
        ({
            let s1 = spec_update(s, t1);
            let s2 = spec_update(s1, t2);
            spec_devices_pulls(s2.backend_comms.outbound) - spec_devices_pulls(
                s.backend_comms.outbound,
            ) <= 1
        }),
{
    let s1 = spec_update(s, t1);
    lemma_update_pulls(s, t1);
    lemma_update_pulls(s1, t2);
}

} // verus!
