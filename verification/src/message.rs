//! Wire messages of the peer protocol.
//!
//! Every inbound frame is decoded into one tagged [`Message`] variant; the
//! tag ([`MsgType`]) keys decoder registration and subscriptions on a
//! connection.

use vstd::prelude::*;

use crate::addr::{addrs_view, Addr};

verus! {

/// The tag of a wire message.
#[derive(Clone, Copy, Debug, PartialEq, Eq, Structural)]
pub enum MsgType {
    Addrs,
    GetAddrs,
}

/// An ordered list of peer addresses.
#[derive(Debug)]
pub struct AddrsMessage {
    pub addrs: Vec<Addr>,
}

/// A pure request for the receiver's known addresses; it has no body.
#[derive(Debug)]
pub struct GetAddrsMessage {}

/// A decoded wire message.
#[derive(Debug)]
pub enum Message {
    Addrs(AddrsMessage),
    GetAddrs(GetAddrsMessage),
}

/// The mathematical value of a wire message.
pub enum MessageV {
    Addrs(Seq<(Seq<char>, u16)>),
    GetAddrs,
}

impl MessageV {
    /// The tag of an abstract message.
    pub open spec fn msg_type(&self) -> MsgType {
        match *self {
            MessageV::Addrs(_) => MsgType::Addrs,
            MessageV::GetAddrs => MsgType::GetAddrs,
        }
    }
}

impl View for AddrsMessage {
    type V = Seq<(Seq<char>, u16)>;

    open spec fn view(&self) -> Seq<(Seq<char>, u16)> {
        addrs_view(self.addrs@)
    }
}

impl View for Message {
    type V = MessageV;

    open spec fn view(&self) -> MessageV {
        match *self {
            Message::Addrs(m) => MessageV::Addrs(m@),
            Message::GetAddrs(_) => MessageV::GetAddrs,
        }
    }
}

/// The views of a list of messages.
pub open spec fn msgs_view(v: Seq<Message>) -> Seq<MessageV> {
    v.map_values(|m: Message| m@)
}

impl AddrsMessage {
    /// A field-for-field copy.
    pub fn duplicate(&self) -> (r: AddrsMessage)
        ensures
            r@ == self@,
    {
        let mut list: Vec<Addr> = Vec::new();
        let mut i: usize = 0;
        while i < self.addrs.len()
            invariant
                i <= self.addrs.len(),
                list@.len() == i,
                forall|k: int| 0 <= k < i ==> list@[k]@ == self.addrs@[k]@,
            decreases self.addrs.len() - i,
        {
            list.push(self.addrs[i].duplicate());
            i = i + 1;
        }
        let r = AddrsMessage { addrs: list };
        proof {
            assert(r@ =~= self@);
        }
        r
    }
}

impl Message {
    /// A copy carrying the same abstract value.
    pub fn duplicate(&self) -> (r: Message)
        ensures
            r@ == self@,
    {
        match self {
            Message::Addrs(m) => Message::Addrs(m.duplicate()),
            Message::GetAddrs(_) => Message::GetAddrs(GetAddrsMessage {}),
        }
    }

    /// The tag this message is dispatched under.
    pub open spec fn msg_type(&self) -> MsgType {
        match *self {
            Message::Addrs(_) => MsgType::Addrs,
            Message::GetAddrs(_) => MsgType::GetAddrs,
        }
    }

    /// The tag, computed at run time.
    pub fn get_type(&self) -> (r: MsgType)
        ensures
            r == self.msg_type(),
    {
        match *self {
            Message::Addrs(_) => MsgType::Addrs,
            Message::GetAddrs(_) => MsgType::GetAddrs,
        }
    }
}

} // verus!
