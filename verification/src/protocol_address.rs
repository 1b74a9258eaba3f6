//! The address-exchange protocol: gossips reachable peer addresses over one
//! connection without centralized discovery.
//!
//! On `init` the handler subscribes to the `Addrs` and `GetAddrs` message
//! types; on `start` it registers its loops with the connection's job
//! manager (plus, for an outbound session of a node with a configured
//! external address, a periodic self-announcement loop) and sends one
//! best-effort `GetAddrs` request. The loop bodies are the step functions
//! below; the enclosing loops, and every suspension between steps, belong
//! to the runtime that drives the connection. A step whose task has been
//! cancelled or recorded as finished changes nothing — that is how `stop`
//! on the job manager guarantees no further side effects.

use vstd::prelude::*;

use crate::addr::{addrs_view, duplicate_addrs, filter_localnet, keeps_addr, Addr};
use crate::channel::{Channel, MessageSubscription, SessionType};
use crate::error::Error;
use crate::hosts::{store_result, Hosts};
use crate::jobs::ProtocolJobsManager;
use crate::message::{AddrsMessage, GetAddrsMessage, Message, MessageV, MsgType};

verus! {

/// How long the self-announcement loop sleeps between sends, in seconds.
pub const SEND_ADDR_SLEEP_SECONDS: u64 = 900;

/// The node configuration the protocol reads.
#[derive(Debug)]
pub struct Settings {
    /// A closed local-only network: store gossiped addresses unfiltered.
    pub localnet: bool,
    /// This node's externally reachable addresses, possibly none.
    pub external_addr: Vec<Addr>,
}

/// The address-exchange handler of one connection.
#[derive(Debug)]
pub struct ProtocolAddress {
    pub addrs_sub: MessageSubscription,
    pub get_addrs_sub: MessageSubscription,
    pub jobsman: ProtocolJobsManager,
    pub settings: Settings,
    pub announce_task: Option<usize>,
    pub recv_addrs_task: Option<usize>,
    pub recv_get_addrs_task: Option<usize>,
}

/// What the `Addrs` list a step stores looks like after local-network
/// filtering: untouched in localnet mode, otherwise with empty-host and
/// localnet entries removed.
pub open spec fn stored_list(localnet: bool, list: Seq<(Seq<char>, u16)>) -> Seq<
    (Seq<char>, u16),
> {
    if localnet {
        list
    } else {
        list.filter(|a: (Seq<char>, u16)| keeps_addr(a))
    }
}

/// Outside local-network mode, a receive-addresses step can only ever add
/// reachable addresses to the book: whatever it holds afterwards was
/// either there before or survives the localnet filter.
pub proof fn lemma_filtering_admits_only_reachable(
    cur: Seq<(Seq<char>, u16)>,
    list: Seq<(Seq<char>, u16)>,
)
    ensures
        forall|x: (Seq<char>, u16)| #![trigger store_result(cur, stored_list(false, list)).contains(x)]
            store_result(cur, stored_list(false, list)).contains(x) ==> cur.contains(x)
                || keeps_addr(x),
{
    let kept = list.filter(|a: (Seq<char>, u16)| keeps_addr(a));
    crate::hosts::lemma_store_result_membership(cur, kept);
    assert forall|x: (Seq<char>, u16)|
        store_result(cur, stored_list(false, list)).contains(x) implies cur.contains(x)
        || keeps_addr(x) by {
        if kept.contains(x) {
            let k = choose|k: int| 0 <= k < kept.len() && kept[k] == x;
            list.lemma_filter_pred(|a: (Seq<char>, u16)| keeps_addr(a), k);
        }
    }
}

impl ProtocolAddress {
    /// Every recorded task handle names a slot of this handler's manager.
    pub open spec fn tasks_wf(&self) -> bool {
        &&& self.announce_task matches Some(t) ==> t < self.jobsman.tasks@.len()
        &&& self.recv_addrs_task matches Some(t) ==> t < self.jobsman.tasks@.len()
        &&& self.recv_get_addrs_task matches Some(t) ==> t < self.jobsman.tasks@.len()
    }

    /// The handler's subscriptions name live slots of `ch`, with the types
    /// the handler decodes.
    pub open spec fn subs_ok(&self, ch: Channel) -> bool {
        &&& ch.valid_sub(self.addrs_sub)
        &&& self.addrs_sub.ty == MsgType::Addrs
        &&& ch.sub_live(self.addrs_sub.id as int)
        &&& ch.valid_sub(self.get_addrs_sub)
        &&& self.get_addrs_sub.ty == MsgType::GetAddrs
        &&& ch.sub_live(self.get_addrs_sub.id as int)
    }

    /// The task behind `handle` is recorded and still running.
    pub open spec fn step_enabled(&self, handle: Option<usize>) -> bool {
        handle matches Some(t) && self.jobsman.task_running(t as int)
    }

    /// Creates the handler for one connection: subscribes to the `Addrs`
    /// and `GetAddrs` message types and sets up a fresh job manager.
    /// Fails with `DispatcherMissing` when the connection was configured
    /// without a decoder for either type.
    pub fn init(channel: &mut Channel, settings: Settings) -> (r: Result<ProtocolAddress, Error>)
        ensures
            r is Ok <==> old(channel).has_dispatcher(MsgType::Addrs) && old(channel).has_dispatcher(
                MsgType::GetAddrs,
            ),
            r matches Err(e) ==> e is DispatcherMissing,
            r matches Ok(p) ==> {
                &&& p.subs_ok(*final(channel))
                &&& p.addrs_sub.id == old(channel).n_subs()
                &&& p.get_addrs_sub.id == old(channel).n_subs() + 1
                &&& final(channel).sub_queue(p.addrs_sub.id as int) == Seq::<MessageV>::empty()
                &&& final(channel).sub_queue(p.get_addrs_sub.id as int) == Seq::<
                    MessageV,
                >::empty()
                &&& !p.jobsman.started
                &&& !p.jobsman.stopped
                &&& p.jobsman.tasks@ == Seq::<crate::jobs::TaskStatus>::empty()
                &&& p.settings == settings
                &&& p.announce_task is None
                &&& p.recv_addrs_task is None
                &&& p.recv_get_addrs_task is None
                &&& p.tasks_wf()
                &&& final(channel).n_subs() == old(channel).n_subs() + 2
            },
            forall|i: int|
                0 <= i < old(channel).n_subs() ==> final(channel).subs@[i] == old(
                    channel,
                ).subs@[i],
            final(channel).registered == old(channel).registered,
            final(channel).outbound == old(channel).outbound,
            final(channel).closed == old(channel).closed,
            final(channel).session == old(channel).session,
            old(channel).wf() ==> final(channel).wf(),
    {
        let addrs_sub = match channel.subscribe(MsgType::Addrs) {
            Ok(s) => s,
            Err(e) => {
                return Err(e);
            },
        };
        let get_addrs_sub = match channel.subscribe(MsgType::GetAddrs) {
            Ok(s) => s,
            Err(e) => {
                return Err(e);
            },
        };
        Ok(
            ProtocolAddress {
                addrs_sub,
                get_addrs_sub,
                jobsman: ProtocolJobsManager::new("ProtocolAddress"),
                settings,
                announce_task: None,
                recv_addrs_task: None,
                recv_get_addrs_task: None,
            },
        )
    }

    /// Starts the protocol: registers the two receive loops (and, for an
    /// outbound session of an externally reachable node, the periodic
    /// self-announcement loop) with the job manager, then sends one
    /// best-effort `GetAddrs` request — a failure to send it is not fatal.
    pub fn start(&mut self, channel: &mut Channel) -> (r: Result<(), Error>)
        requires
            !old(self).jobsman.stopped,
            old(self).jobsman.tasks@.len() + 3 <= usize::MAX,
        ensures
            r is Ok,
            final(self).jobsman.started,
            !final(self).jobsman.stopped,
            final(self).tasks_wf(),
            final(self).step_enabled(final(self).recv_addrs_task),
            final(self).step_enabled(final(self).recv_get_addrs_task),
            (final(self).announce_task is Some) <==> (old(channel).session == SessionType::Outbound
                && old(self).settings.external_addr@.len() > 0),
            final(self).announce_task is Some ==> final(self).step_enabled(
                final(self).announce_task,
            ),
            final(self).addrs_sub == old(self).addrs_sub,
            final(self).get_addrs_sub == old(self).get_addrs_sub,
            final(self).settings == old(self).settings,
            !old(channel).closed ==> final(channel).sent() == old(channel).sent().push(
                MessageV::GetAddrs,
            ),
            old(channel).closed ==> final(channel).sent() == old(channel).sent(),
            final(channel).subs == old(channel).subs,
            final(channel).registered == old(channel).registered,
            final(channel).closed == old(channel).closed,
            final(channel).session == old(channel).session,
            old(channel).wf() ==> final(channel).wf(),
            old(self).subs_ok(*old(channel)) ==> final(self).subs_ok(*final(channel)),
    {
        // An outbound session of an externally reachable node also
        // announces its own address periodically.
        if channel.session_type_id() == SessionType::Outbound && self.settings.external_addr.len()
            > 0 {
            self.jobsman.start();
            let t = self.jobsman.spawn();
            self.announce_task = Some(t);
        } else {
            self.announce_task = None;
        }

        self.jobsman.start();
        let t1 = self.jobsman.spawn();
        self.recv_addrs_task = Some(t1);
        let t2 = self.jobsman.spawn();
        self.recv_get_addrs_task = Some(t2);

        // Ask the peer for its addresses; best effort.
        let _ = channel.send(Message::GetAddrs(GetAddrsMessage {}));
        Ok(())
    }

    /// One step of the receive-addresses loop: takes the next inbound
    /// address list, filters it unless the node runs a closed local
    /// network, and stores the result into the shared address book. A
    /// cancelled task, or an empty queue on a live connection, changes
    /// nothing; a closed connection ends the loop with `ChannelClosed`.
    pub fn handle_receive_addrs(
        &self,
        channel: &mut Channel,
        hosts: &mut Hosts,
    ) -> (r: Result<bool, Error>)
        requires
            old(channel).wf(),
            old(hosts).wf(),
            self.subs_ok(*old(channel)),
            self.tasks_wf(),
        ensures
            final(hosts).wf(),
            final(channel).wf(),
            self.subs_ok(*final(channel)),
            !self.step_enabled(self.recv_addrs_task) ==> {
                &&& *final(channel) == *old(channel)
                &&& *final(hosts) == *old(hosts)
                &&& r matches Ok(b) && !b
            },
            self.step_enabled(self.recv_addrs_task) ==> {
                let q = old(channel).sub_queue(self.addrs_sub.id as int);
                &&& q.len() == 0 && !old(channel).closed ==> {
                    &&& *final(channel) == *old(channel)
                    &&& *final(hosts) == *old(hosts)
                    &&& r matches Ok(b) && !b
                }
                &&& q.len() == 0 && old(channel).closed ==> {
                    &&& *final(channel) == *old(channel)
                    &&& *final(hosts) == *old(hosts)
                    &&& r matches Err(e) && e is ChannelClosed
                }
                &&& q.len() > 0 ==> {
                    &&& r matches Ok(b) && b
                    &&& q[0] matches MessageV::Addrs(list) && final(hosts)@ == store_result(
                        old(hosts)@,
                        stored_list(self.settings.localnet, list),
                    )
                    &&& final(channel).sub_queue(self.addrs_sub.id as int) == q.drop_first()
                    &&& forall|i: int|
                        0 <= i < old(channel).n_subs() && i != self.addrs_sub.id
                            ==> final(channel).subs@[i] == old(channel).subs@[i]
                    &&& final(channel).sent() == old(channel).sent()
                    &&& final(channel).closed == old(channel).closed
                }
            },
            final(channel).registered == old(channel).registered,
            final(channel).session == old(channel).session,
            final(channel).n_subs() == old(channel).n_subs(),
    {
        // A task the manager no longer runs must deliver no side effects.
        let enabled = match self.recv_addrs_task {
            Some(t) => self.jobsman.is_running(t),
            None => false,
        };
        if !enabled {
            return Ok(false);
        }

        let msg = match channel.receive(&self.addrs_sub) {
            Ok(Some(m)) => m,
            Ok(None) => {
                return Ok(false);
            },
            Err(e) => {
                return Err(e);
            },
        };

        match msg {
            Message::Addrs(addrs_msg) => {
                let list = if !self.settings.localnet {
                    filter_localnet(&addrs_msg.addrs)
                } else {
                    addrs_msg.addrs
                };
                hosts.store(list);
                Ok(true)
            },
            Message::GetAddrs(_) => {
                // The subscription carries only `Addrs` messages.
                proof {
                    assert(false);
                }
                Err(Error::MalformedPacket)
            },
        }
    }

    /// One step of the receive-get-addresses loop: takes the next inbound
    /// request and replies with the full current contents of the address
    /// book as one `Addrs` message — no pagination. A cancelled task, or
    /// an empty queue on a live connection, changes nothing; a closed
    /// connection ends the loop with `ChannelClosed`.
    pub fn handle_receive_get_addrs(
        &self,
        channel: &mut Channel,
        hosts: &Hosts,
    ) -> (r: Result<bool, Error>)
        requires
            old(channel).wf(),
            self.subs_ok(*old(channel)),
            self.tasks_wf(),
        ensures
            final(channel).wf(),
            self.subs_ok(*final(channel)),
            !self.step_enabled(self.recv_get_addrs_task) ==> {
                &&& *final(channel) == *old(channel)
                &&& r matches Ok(b) && !b
            },
            self.step_enabled(self.recv_get_addrs_task) ==> {
                let q = old(channel).sub_queue(self.get_addrs_sub.id as int);
                &&& q.len() == 0 && !old(channel).closed ==> {
                    &&& *final(channel) == *old(channel)
                    &&& r matches Ok(b) && !b
                }
                &&& q.len() == 0 && old(channel).closed ==> {
                    &&& *final(channel) == *old(channel)
                    &&& r matches Err(e) && e is ChannelClosed
                }
                &&& q.len() > 0 ==> {
                    &&& final(channel).sub_queue(self.get_addrs_sub.id as int) == q.drop_first()
                    &&& forall|i: int|
                        0 <= i < old(channel).n_subs() && i != self.get_addrs_sub.id
                            ==> final(channel).subs@[i] == old(channel).subs@[i]
                    &&& !old(channel).closed ==> (r matches Ok(b) && b && final(channel).sent()
                        == old(channel).sent().push(MessageV::Addrs(hosts@)))
                    &&& old(channel).closed ==> (r matches Err(e) && e is ChannelClosed
                        && final(channel).sent() == old(channel).sent())
                }
            },
            final(channel).registered == old(channel).registered,
            final(channel).session == old(channel).session,
            final(channel).closed == old(channel).closed,
            final(channel).n_subs() == old(channel).n_subs(),
    {
        let enabled = match self.recv_get_addrs_task {
            Some(t) => self.jobsman.is_running(t),
            None => false,
        };
        if !enabled {
            return Ok(false);
        }

        match channel.receive(&self.get_addrs_sub) {
            Ok(Some(_request)) => {},
            Ok(None) => {
                return Ok(false);
            },
            Err(e) => {
                return Err(e);
            },
        }

        // Load the address book and send the whole of it back.
        let addrs = hosts.load_all();
        match channel.send(Message::Addrs(AddrsMessage { addrs })) {
            Ok(()) => Ok(true),
            Err(e) => Err(e),
        }
    }

    /// One step of the self-announcement loop: sends this node's own
    /// externally reachable addresses as an `Addrs` message. The caller
    /// sleeps [`SEND_ADDR_SLEEP_SECONDS`] between steps. A cancelled task
    /// changes nothing; a closed connection ends the loop.
    pub fn send_my_addrs(&self, channel: &mut Channel) -> (r: Result<bool, Error>)
        requires
            self.tasks_wf(),
        ensures
            !self.step_enabled(self.announce_task) ==> {
                &&& *final(channel) == *old(channel)
                &&& r matches Ok(b) && !b
            },
            self.step_enabled(self.announce_task) ==> {
                &&& !old(channel).closed ==> (r matches Ok(b) && b && final(channel).sent()
                    == old(channel).sent().push(
                    MessageV::Addrs(addrs_view(self.settings.external_addr@)),
                ))
                &&& old(channel).closed ==> (r matches Err(e) && e is ChannelClosed
                    && *final(channel) == *old(channel))
            },
            final(channel).subs == old(channel).subs,
            final(channel).registered == old(channel).registered,
            final(channel).closed == old(channel).closed,
            final(channel).session == old(channel).session,
            old(channel).wf() ==> final(channel).wf(),
    {
        let enabled = match self.announce_task {
            Some(t) => self.jobsman.is_running(t),
            None => false,
        };
        if !enabled {
            return Ok(false);
        }

        let addrs = duplicate_addrs(&self.settings.external_addr);
        match channel.send(Message::Addrs(AddrsMessage { addrs })) {
            Ok(()) => Ok(true),
            Err(e) => Err(e),
        }
    }

    /// The protocol's name.
    pub fn name(&self) -> (r: &'static str)
        ensures
            r@ == "ProtocolAddress"@,
    {
        "ProtocolAddress"
    }
}

} // verus!
