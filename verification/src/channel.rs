//! The per-connection message bus.
//!
//! A [`Channel`] models one live duplex link to a peer: the decoder
//! registrations made at connection setup, the typed subscription queues,
//! the outbound message stream, and the liveness flag. Every inbound
//! message is fanned out to all live subscriptions of its type, in arrival
//! order; delivery appends to logically independent queues, so one slow
//! subscriber never blocks another.

use vstd::prelude::*;

use crate::error::Error;
use crate::message::{msgs_view, Message, MessageV, MsgType};

verus! {

/// How this connection's session was established.
#[derive(Clone, Copy, Debug, PartialEq, Eq, Structural)]
pub enum SessionType {
    Inbound,
    Outbound,
    Seed,
}

/// A subscriber's handle: the queue index it was assigned and the message
/// type it receives.
#[derive(Clone, Copy, Debug)]
pub struct MessageSubscription {
    pub id: usize,
    pub ty: MsgType,
}

/// One subscription's state inside the bus.
#[derive(Debug)]
pub struct SubState {
    pub ty: MsgType,
    pub queue: Vec<Message>,
    pub live: bool,
}

/// A live duplex link to one peer, with its message bus.
#[derive(Debug)]
pub struct Channel {
    pub session: SessionType,
    pub registered: Vec<MsgType>,
    pub subs: Vec<SubState>,
    pub outbound: Vec<Message>,
    pub closed: bool,
}

impl Channel {
    /// A decoder for `ty` was registered at connection setup.
    pub open spec fn has_dispatcher(&self, ty: MsgType) -> bool {
        self.registered@.contains(ty)
    }

    /// The number of subscription slots ever created.
    pub open spec fn n_subs(&self) -> int {
        self.subs@.len() as int
    }

    /// The message type of subscription slot `i`.
    pub open spec fn sub_ty(&self, i: int) -> MsgType {
        self.subs@[i].ty
    }

    /// Whether subscription slot `i` is still held by a subscriber.
    pub open spec fn sub_live(&self, i: int) -> bool {
        self.subs@[i].live
    }

    /// The queued, not yet received messages of subscription slot `i`.
    pub open spec fn sub_queue(&self, i: int) -> Seq<MessageV> {
        msgs_view(self.subs@[i].queue@)
    }

    /// The messages handed to the peer, oldest first.
    pub open spec fn sent(&self) -> Seq<MessageV> {
        msgs_view(self.outbound@)
    }

    /// `sub` names a slot of this channel and carries its type.
    pub open spec fn valid_sub(&self, sub: MessageSubscription) -> bool {
        sub.id < self.n_subs() && self.sub_ty(sub.id as int) == sub.ty
    }

    /// Every queued message has the type of its subscription.
    pub open spec fn wf(&self) -> bool {
        forall|i: int, k: int|
            0 <= i < self.n_subs() && 0 <= k < self.sub_queue(i).len() ==> (#[trigger] self.sub_queue(
                i,
            )[k]).msg_type() == self.sub_ty(i)
    }

    /// Well-formedness depends on the subscription slots alone.
    proof fn lemma_wf_same_subs(a: Channel, b: Channel)
        requires
            a.wf(),
            a.subs == b.subs,
        ensures
            b.wf(),
    {
        assert forall|i: int, k: int|
            0 <= i < b.n_subs() && 0 <= k < b.sub_queue(i).len() implies (#[trigger] b.sub_queue(
            i,
        )[k]).msg_type() == b.sub_ty(i) by {
            assert(a.sub_queue(i) == b.sub_queue(i));
            assert(a.sub_queue(i)[k].msg_type() == a.sub_ty(i));
        }
    }

    /// A fresh channel: nothing registered, no subscribers, nothing sent.
    pub fn new(session: SessionType) -> (r: Channel)
        ensures
            r.session == session,
            r.registered@ == Seq::<MsgType>::empty(),
            r.n_subs() == 0,
            r.sent() == Seq::<MessageV>::empty(),
            !r.closed,
            r.wf(),
    {
        let r = Channel {
            session,
            registered: Vec::new(),
            subs: Vec::new(),
            outbound: Vec::new(),
            closed: false,
        };
        proof {
            assert(r.sent() =~= Seq::<MessageV>::empty());
        }
        r
    }

    /// The session role this connection was created with.
    pub fn session_type_id(&self) -> (r: SessionType)
        ensures
            r == self.session,
    {
        self.session
    }

    /// Registers a decoder for `ty`; done once per supported type at
    /// connection setup.
    pub fn register(&mut self, ty: MsgType)
        ensures
            final(self).registered@ == old(self).registered@.push(ty),
            final(self).has_dispatcher(ty),
            forall|t: MsgType| old(self).has_dispatcher(t) ==> final(self).has_dispatcher(t),
            final(self).subs == old(self).subs,
            final(self).outbound == old(self).outbound,
            final(self).closed == old(self).closed,
            final(self).session == old(self).session,
            old(self).wf() ==> final(self).wf(),
    {
        self.registered.push(ty);
        proof {
            if old(self).wf() {
                Channel::lemma_wf_same_subs(*old(self), *self);
            }
            assert(self.registered@[self.registered@.len() - 1] == ty);
            assert forall|t: MsgType| old(self).registered@.contains(t) implies self.registered@.contains(
                t,
            ) by {
                let k = choose|k: int|
                    0 <= k < old(self).registered@.len() && old(self).registered@[k] == t;
                assert(self.registered@[k] == t);
            }
        }
    }

    fn is_registered(&self, ty: MsgType) -> (r: bool)
        ensures
            r == self.has_dispatcher(ty),
    {
        let mut i: usize = 0;
        while i < self.registered.len()
            invariant
                i <= self.registered.len(),
                forall|k: int| 0 <= k < i ==> self.registered@[k] != ty,
            decreases self.registered.len() - i,
        {
            if self.registered[i] == ty {
                assert(self.registered@[i as int] == ty);
                return true;
            }
            i = i + 1;
        }
        false
    }

    /// Creates a subscription to messages of type `ty`. Fails with
    /// `DispatcherMissing` when no decoder for `ty` was registered: a
    /// configuration error, not a runtime race.
    pub fn subscribe(&mut self, ty: MsgType) -> (r: Result<MessageSubscription, Error>)
        ensures
            r is Ok <==> old(self).has_dispatcher(ty),
            r matches Ok(sub) ==> {
                &&& sub.id == old(self).n_subs()
                &&& sub.ty == ty
                &&& final(self).valid_sub(sub)
                &&& final(self).n_subs() == old(self).n_subs() + 1
                &&& final(self).sub_ty(sub.id as int) == ty
                &&& final(self).sub_live(sub.id as int)
                &&& final(self).sub_queue(sub.id as int) == Seq::<MessageV>::empty()
                &&& forall|i: int|
                    0 <= i < old(self).n_subs() ==> final(self).subs@[i] == old(self).subs@[i]
            },
            r is Err ==> final(self).subs == old(self).subs,
            r matches Err(e) ==> e is DispatcherMissing,
            final(self).registered == old(self).registered,
            final(self).outbound == old(self).outbound,
            final(self).closed == old(self).closed,
            final(self).session == old(self).session,
            old(self).wf() ==> final(self).wf(),
    {
        if !self.is_registered(ty) {
            return Err(Error::DispatcherMissing);
        }
        let id = self.subs.len();
        self.subs.push(SubState { ty, queue: Vec::new(), live: true });
        let sub = MessageSubscription { id, ty };
        proof {
            assert(self.sub_queue(id as int) =~= Seq::<MessageV>::empty());
            if old(self).wf() {
                assert forall|i: int, k: int|
                    0 <= i < self.n_subs() && 0 <= k < self.sub_queue(i).len() implies (
                #[trigger] self.sub_queue(i)[k]).msg_type() == self.sub_ty(i) by {
                    if i < id {
                        assert(self.subs@[i] == old(self).subs@[i]);
                        assert(old(self).sub_queue(i)[k].msg_type() == old(self).sub_ty(i));
                    }
                }
            }
        }
        Ok(sub)
    }

    /// Drops a subscription: later inbound messages of its type are no
    /// longer delivered to it.
    pub fn unsubscribe(&mut self, sub: MessageSubscription)
        requires
            old(self).valid_sub(sub),
        ensures
            final(self).n_subs() == old(self).n_subs(),
            !final(self).sub_live(sub.id as int),
            final(self).sub_ty(sub.id as int) == old(self).sub_ty(sub.id as int),
            final(self).sub_queue(sub.id as int) == old(self).sub_queue(sub.id as int),
            forall|i: int|
                0 <= i < old(self).n_subs() && i != sub.id ==> final(self).subs@[i] == old(
                    self,
                ).subs@[i],
            final(self).registered == old(self).registered,
            final(self).outbound == old(self).outbound,
            final(self).closed == old(self).closed,
            final(self).session == old(self).session,
            old(self).wf() ==> final(self).wf(),
    {
        let ghost pre = *self;
        let old_sub = self.subs.remove(sub.id);
        self.subs.insert(sub.id, SubState { ty: old_sub.ty, queue: old_sub.queue, live: false });
        proof {
            assert(self.subs@ =~= pre.subs@.update(
                sub.id as int,
                SubState { ty: pre.subs@[sub.id as int].ty, queue: pre.subs@[sub.id as int].queue, live: false },
            ));
            if pre.wf() {
                assert forall|i: int, k: int|
                    0 <= i < self.n_subs() && 0 <= k < self.sub_queue(i).len() implies (
                #[trigger] self.sub_queue(i)[k]).msg_type() == self.sub_ty(i) by {
                    assert(pre.sub_queue(i)[k].msg_type() == pre.sub_ty(i));
                }
            }
        }
    }

    /// Marks the connection gone: later sends and empty receives fail.
    pub fn close(&mut self)
        ensures
            final(self).closed,
            final(self).registered == old(self).registered,
            final(self).subs == old(self).subs,
            final(self).outbound == old(self).outbound,
            final(self).session == old(self).session,
            old(self).wf() ==> final(self).wf(),
    {
        self.closed = true;
        proof {
            if old(self).wf() {
                Channel::lemma_wf_same_subs(*old(self), *self);
            }
        }
    }

    /// Delivers one decoded inbound message to every live subscription of
    /// its type, in arrival order: each of them observes it exactly once,
    /// and no queue of another type or dead slot changes. An unregistered
    /// tag is rejected as a malformed packet and delivered nowhere.
    pub fn dispatch(&mut self, m: &Message) -> (r: Result<(), Error>)
        ensures
            r is Ok <==> old(self).has_dispatcher(m@.msg_type()),
            r matches Err(e) ==> e is MalformedPacket,
            r is Err ==> final(self).subs == old(self).subs,
            final(self).n_subs() == old(self).n_subs(),
            forall|i: int|
                0 <= i < old(self).n_subs() ==> final(self).sub_ty(i) == old(self).sub_ty(i)
                    && final(self).sub_live(i) == old(self).sub_live(i),
            r is Ok ==> forall|i: int|
                0 <= i < old(self).n_subs() && old(self).sub_live(i) && old(self).sub_ty(i)
                    == m@.msg_type() ==> final(self).sub_queue(i) == old(self).sub_queue(i).push(
                    m@,
                ),
            forall|i: int|
                0 <= i < old(self).n_subs() && !(old(self).sub_live(i) && old(self).sub_ty(i)
                    == m@.msg_type()) ==> final(self).sub_queue(i) == old(self).sub_queue(i),
            final(self).registered == old(self).registered,
            final(self).outbound == old(self).outbound,
            final(self).closed == old(self).closed,
            final(self).session == old(self).session,
            old(self).wf() ==> final(self).wf(),
    {
        let ty = m.get_type();
        if !self.is_registered(ty) {
            return Err(Error::MalformedPacket);
        }
        let ghost orig = *self;
        let mut i: usize = 0;
        while i < self.subs.len()
            invariant
                i <= self.subs.len(),
                self.n_subs() == orig.n_subs(),
                ty == m@.msg_type(),
                forall|j: int|
                    0 <= j < orig.n_subs() ==> self.sub_ty(j) == orig.sub_ty(j) && self.sub_live(
                        j,
                    ) == orig.sub_live(j),
                forall|j: int|
                    0 <= j < i && orig.sub_live(j) && orig.sub_ty(j) == m@.msg_type()
                        ==> self.sub_queue(j) == orig.sub_queue(j).push(m@),
                forall|j: int|
                    (i <= j < orig.n_subs() || !(orig.sub_live(j) && orig.sub_ty(j)
                        == m@.msg_type())) && 0 <= j < orig.n_subs() ==> self.subs@[j].queue
                        == orig.subs@[j].queue,
                self.registered == orig.registered,
                self.outbound == orig.outbound,
                self.closed == orig.closed,
                self.session == orig.session,
                orig.wf() ==> self.wf(),
            decreases self.subs.len() - i,
        {
            let ghost pre = *self;
            let deliver = self.subs[i].live && self.subs[i].ty == ty;
            if deliver {
                let copy = m.duplicate();
                let slot = self.subs.remove(i);
                let mut queue = slot.queue;
                queue.push(copy);
                self.subs.insert(i, SubState { ty: slot.ty, queue, live: slot.live });
                proof {
                    assert(self.subs@ =~= pre.subs@.update(
                        i as int,
                        self.subs@[i as int],
                    ));
                    assert(self.sub_queue(i as int) =~= pre.sub_queue(i as int).push(m@));
                    if orig.wf() {
                        assert forall|a: int, k: int|
                            0 <= a < self.n_subs() && 0 <= k < self.sub_queue(a).len() implies (
                        #[trigger] self.sub_queue(a)[k]).msg_type() == self.sub_ty(a) by {
                            if a != i {
                                assert(self.subs@[a] == pre.subs@[a]);
                                assert(pre.sub_queue(a)[k].msg_type() == pre.sub_ty(a));
                            } else {
                                if k < pre.sub_queue(a).len() {
                                    assert(pre.sub_queue(a)[k].msg_type() == pre.sub_ty(a));
                                } else {
                                    assert(self.sub_queue(a)[k] == m@);
                                }
                            }
                        }
                    }
                }
            }
            i = i + 1;
        }
        Ok(())
    }

    /// Takes the oldest queued message of `sub`, if any. An empty queue on
    /// a closed connection fails with `ChannelClosed`; an empty queue on a
    /// live one reports that the caller would suspend.
    pub fn receive(&mut self, sub: &MessageSubscription) -> (r: Result<Option<Message>, Error>)
        requires
            old(self).valid_sub(*sub),
        ensures
            final(self).valid_sub(*sub),
            old(self).sub_queue(sub.id as int).len() > 0 ==> {
                &&& r matches Ok(Some(m)) && m@ == old(self).sub_queue(sub.id as int)[0]
                &&& final(self).sub_queue(sub.id as int) == old(self).sub_queue(
                    sub.id as int,
                ).drop_first()
                &&& forall|i: int|
                    0 <= i < old(self).n_subs() && i != sub.id ==> final(self).subs@[i] == old(
                        self,
                    ).subs@[i]
                &&& final(self).sub_ty(sub.id as int) == old(self).sub_ty(sub.id as int)
                &&& final(self).sub_live(sub.id as int) == old(self).sub_live(sub.id as int)
            },
            old(self).sub_queue(sub.id as int).len() == 0 && old(self).closed ==> (r matches Err(
                e,
            ) && e is ChannelClosed && *final(self) == *old(self)),
            old(self).sub_queue(sub.id as int).len() == 0 && !old(self).closed ==> (r matches Ok(
                m,
            ) && m is None && *final(self) == *old(self)),
            old(self).wf() ==> final(self).wf(),
            old(self).wf() && old(self).sub_queue(sub.id as int).len() > 0 ==> (r matches Ok(
                Some(m),
            ) && m@.msg_type() == sub.ty),
            final(self).n_subs() == old(self).n_subs(),
            final(self).registered == old(self).registered,
            final(self).outbound == old(self).outbound,
            final(self).closed == old(self).closed,
            final(self).session == old(self).session,
    {
        let ghost pre = *self;
        if self.subs[sub.id].queue.len() == 0 {
            if self.closed {
                return Err(Error::ChannelClosed);
            }
            return Ok(None);
        }
        let slot = self.subs.remove(sub.id);
        let mut queue = slot.queue;
        let msg = queue.remove(0);
        self.subs.insert(sub.id, SubState { ty: slot.ty, queue, live: slot.live });
        proof {
            assert(self.subs@ =~= pre.subs@.update(sub.id as int, self.subs@[sub.id as int]));
            assert(msg@ == pre.sub_queue(sub.id as int)[0]);
            assert(self.sub_queue(sub.id as int) =~= pre.sub_queue(sub.id as int).drop_first());
            if pre.wf() {
                assert(pre.sub_queue(sub.id as int)[0].msg_type() == pre.sub_ty(sub.id as int));
                assert forall|a: int, k: int|
                    0 <= a < self.n_subs() && 0 <= k < self.sub_queue(a).len() implies (
                #[trigger] self.sub_queue(a)[k]).msg_type() == self.sub_ty(a) by {
                    if a != sub.id {
                        assert(self.subs@[a] == pre.subs@[a]);
                        assert(pre.sub_queue(a)[k].msg_type() == pre.sub_ty(a));
                    } else {
                        assert(self.sub_queue(a)[k] == pre.sub_queue(a)[k + 1]);
                        assert(pre.sub_queue(a)[k + 1].msg_type() == pre.sub_ty(a));
                    }
                }
            }
        }
        Ok(Some(msg))
    }

    /// Hands a message to the peer. Fails with `ChannelClosed` when the
    /// connection is gone; nothing is recorded as sent in that case.
    pub fn send(&mut self, m: Message) -> (r: Result<(), Error>)
        ensures
            r is Ok <==> !old(self).closed,
            r matches Err(e) ==> e is ChannelClosed,
            r is Ok ==> final(self).sent() == old(self).sent().push(m@),
            r is Err ==> *final(self) == *old(self),
            final(self).registered == old(self).registered,
            final(self).subs == old(self).subs,
            final(self).closed == old(self).closed,
            final(self).session == old(self).session,
            old(self).wf() ==> final(self).wf(),
    {
        if self.closed {
            return Err(Error::ChannelClosed);
        }
        let ghost pre = *self;
        self.outbound.push(m);
        proof {
            assert(self.sent() =~= pre.sent().push(self.outbound@[self.outbound@.len() - 1]@));
            if pre.wf() {
                Channel::lemma_wf_same_subs(pre, *self);
            }
        }
        Ok(())
    }
}

} // verus!
