//! The client end of the duplex channel to the backend, modelled as a pair
//! of FIFO queues. Outbound commands accumulate until the network side
//! drains them; inbound events accumulate as the network side delivers
//! decoded text, and are consumed one per poll. Everything network-facing
//! (sockets, reconnects, background listeners) lives outside the library
//! and talks to this type through `take_outbound`, `deliver` and
//! `set_connected`.

use vstd::prelude::*;

use crate::channel::ChannelId;
use crate::config::{Device, DeviceConfig, DeviceId};
use crate::message::{BackWsMessage, BackWsMessageView, WsMessageData, WsMessageType};
use crate::message::{device_msg, devices_pull_msg, msg_wf, pipeline_msg, subscriptions_msg};

verus! {

/// Error payload of the HTTP face of the backend.
#[derive(Debug)]
pub struct ApiError {
    pub detail: String,
}

impl Default for ApiError {
    fn default() -> (r: Self)
        ensures
            r.detail@ == "ApiError"@,
    {
        ApiError { detail: String::from_str("ApiError") }
    }
}

/// The message channel to the backend.
pub struct BackendCommChannel {
    outbound: Vec<BackWsMessage>,
    inbound: Vec<BackWsMessage>,
    connected: bool,
    shut_down: bool,
}

#[verifier::ext_equal]
pub struct BackendCommChannelView {
    /// Commands awaiting the network side, oldest first.
    pub outbound: Seq<BackWsMessageView>,
    /// Decoded events awaiting the session, in arrival order.
    pub inbound: Seq<BackWsMessageView>,
    /// Whether the network side reports an open socket.
    pub connected: bool,
    /// After shutdown, sending is a no-op and receiving returns nothing.
    pub shut_down: bool,
}

impl View for BackendCommChannel {
    type V = BackendCommChannelView;

    closed spec fn view(&self) -> BackendCommChannelView {
        BackendCommChannelView {
            outbound: self.outbound@.map_values(|m: BackWsMessage| m@),
            inbound: self.inbound@.map_values(|m: BackWsMessage| m@),
            connected: self.connected,
            shut_down: self.shut_down,
        }
    }
}

/// Sending enqueues unless the channel was shut down.
pub open spec fn spec_send(t: BackendCommChannelView, m: BackWsMessageView) -> BackendCommChannelView {
    if t.shut_down {
        t
    } else {
        BackendCommChannelView { outbound: t.outbound.push(m), ..t }
    }
}

/// Receiving pops the oldest inbound event, if any and if not shut down.
pub open spec fn spec_receive(t: BackendCommChannelView) -> (BackendCommChannelView, Option<BackWsMessageView>) {
    if t.shut_down || t.inbound.len() == 0 {
        (t, None)
    } else {
        (BackendCommChannelView { inbound: t.inbound.skip(1), ..t }, Some(t.inbound[0]))
    }
}

impl Default for BackendCommChannel {
    /// A fresh channel: nothing queued, socket not yet reported open.
    fn default() -> (r: Self)
        ensures
            r@.outbound == Seq::<BackWsMessageView>::empty(),
            r@.inbound == Seq::<BackWsMessageView>::empty(),
            r@.connected == false,
            r@.shut_down == false,
    {
        let r = BackendCommChannel {
            outbound: Vec::new(),
            inbound: Vec::new(),
            connected: false,
            shut_down: false,
        };
        proof {
            assert(r@.outbound =~= Seq::<BackWsMessageView>::empty());
            assert(r@.inbound =~= Seq::<BackWsMessageView>::empty());
        }
        r
    }
}

impl BackendCommChannel {
    /// Best-effort enqueue of one outbound command.
    pub fn send(&mut self, m: BackWsMessage)
        ensures
            final(self)@ == spec_send(old(self)@, m@),
    {
        if !self.shut_down {
            self.outbound.push(m);
            proof {
                assert(self@.outbound =~= old(self)@.outbound.push(m@));
                assert(self@ =~= spec_send(old(self)@, m@));
            }
        }
    }

    /// At most one decoded event per call, in arrival order.
    pub fn receive(&mut self) -> (r: Option<BackWsMessage>)
        ensures
            final(self)@ == spec_receive(old(self)@).0,
            match r {
                Some(m) => spec_receive(old(self)@).1 == Some(m@),
                None => spec_receive(old(self)@).1 is None,
            },
    {
        if self.shut_down || self.inbound.len() == 0 {
            None
        } else {
            let m = self.inbound.remove(0);
            proof {
                assert(self@.inbound =~= old(self)@.inbound.skip(1));
                assert(self@ =~= spec_receive(old(self)@).0);
            }
            Some(m)
        }
    }

    /// The network side hands over one decoded, well-formed event.
    pub fn deliver(&mut self, m: BackWsMessage)
        requires
            msg_wf(m@),
        ensures
            final(self)@ == if old(self)@.shut_down {
                old(self)@
            } else {
                (BackendCommChannelView { inbound: old(self)@.inbound.push(m@), ..old(self)@ })
            },
    {
        if !self.shut_down {
            self.inbound.push(m);
            proof {
                assert(self@.inbound =~= old(self)@.inbound.push(m@));
                assert(self@ =~= BackendCommChannelView { inbound: old(self)@.inbound.push(m@), ..old(self)@ });
            }
        }
    }

    /// The network side hands over one raw text frame. Every JSON document
    /// — whatever it decodes to: a typed event, or the error event a
    /// malformed payload degrades to — joins the inbound queue, so no
    /// inbound message is lost while the channel is up. A frame that is
    /// not JSON at all is dropped, and a shut-down channel stays inert.
    pub fn deliver_text(&mut self, text: &str)
        ensures
            old(self)@.shut_down || !crate::json::json_parses(text@) ==> final(self)@ == old(
                self,
            )@,
            !old(self)@.shut_down && crate::json::json_parses(text@) ==> exists|
                m: BackWsMessageView,
            |
                msg_wf(m) && final(self)@ == (BackendCommChannelView {
                    inbound: old(self)@.inbound.push(m),
                    ..old(self)@
                }),
    {
        match crate::codec::decode_message(text) {
            Some(m) => {
                let ghost mv = m@;
                self.deliver(m);
                proof {
                    if !old(self)@.shut_down {
                        assert(msg_wf(mv) && self@ == (BackendCommChannelView {
                            inbound: old(self)@.inbound.push(mv),
                            ..old(self)@
                        }));
                    }
                }
            },
            None => {},
        }
    }

    /// The network side drains everything queued for sending.
    pub fn take_outbound(&mut self) -> (r: Vec<BackWsMessage>)
        ensures
            r@.map_values(|m: BackWsMessage| m@) == old(self)@.outbound,
            final(self)@ == (BackendCommChannelView { outbound: Seq::empty(), ..old(self)@ }),
    {
        let mut drained: Vec<BackWsMessage> = Vec::new();
        core::mem::swap(&mut drained, &mut self.outbound);
        proof {
            assert(self@.outbound =~= Seq::<BackWsMessageView>::empty());
            assert(self@ =~= BackendCommChannelView { outbound: Seq::empty(), ..old(self)@ });
        }
        drained
    }

    /// The network side reports whether the socket is open.
    pub fn set_connected(&mut self, connected: bool)
        ensures
            final(self)@ == (BackendCommChannelView { connected, ..old(self)@ }),
    {
        self.connected = connected;
        proof {
            assert(self@ =~= BackendCommChannelView { connected, ..old(self)@ });
        }
    }

    pub fn is_connected(&self) -> (r: bool)
        ensures
            r == self@.connected,
    {
        self.connected
    }

    /// Scoped teardown: afterwards sends are dropped and receives are empty.
    pub fn shutdown(&mut self)
        ensures
            final(self)@ == (BackendCommChannelView { shut_down: true, ..old(self)@ }),
    {
        self.shut_down = true;
        proof {
            assert(self@ =~= BackendCommChannelView { shut_down: true, ..old(self)@ });
        }
    }

    /// Queues the desired subscription set as a command.
    pub fn set_subscriptions(&mut self, subscriptions: &Vec<ChannelId>)
        ensures
            final(self)@ == spec_send(old(self)@, subscriptions_msg(subscriptions@)),
    {
        self.send(BackWsMessage {
            kind: WsMessageType::Subscriptions,
            data: WsMessageData::Subscriptions(crate::channel::copy_channels(subscriptions)),
        });
    }

    /// Queues a configuration push.
    pub fn set_pipeline(&mut self, config: &DeviceConfig)
        ensures
            final(self)@ == spec_send(old(self)@, pipeline_msg(config@)),
    {
        self.send(BackWsMessage {
            kind: WsMessageType::Pipeline,
            data: WsMessageData::Pipeline(config.clone()),
        });
    }

    /// Queues a catalog pull request.
    pub fn get_devices(&mut self)
        ensures
            final(self)@ == spec_send(old(self)@, devices_pull_msg()),
    {
        let empty: Vec<DeviceId> = Vec::new();
        proof {
            assert(empty@ =~= Seq::<DeviceId>::empty());
        }
        self.send(BackWsMessage { kind: WsMessageType::Devices, data: WsMessageData::Devices(empty) });
    }

    /// Queues a device selection command.
    pub fn set_device(&mut self, device_id: DeviceId)
        ensures
            final(self)@ == spec_send(old(self)@, device_msg(device_id)),
    {
        self.send(BackWsMessage {
            kind: WsMessageType::Device,
            data: WsMessageData::Device(Device { id: device_id }),
        });
    }
}

} // verus!
