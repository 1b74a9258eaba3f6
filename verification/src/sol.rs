//! The decision core and error type of the foreign-chain bridge service.
//!
//! The bridge itself — its websocket, its RPC client, its keys — is an
//! external collaborator. What belongs to this core is the decision its
//! notification loop takes on a balance update, and the service's error
//! taxonomy.

use vstd::prelude::*;

use crate::error::Error;

verus! {

/// The decimal rendering of a number, most significant digit first.
pub open spec fn dec_str(n: nat) -> Seq<char>
    decreases n,
{
    if n < 10 {
        seq![dec_digit(n)]
    } else {
        dec_str(n / 10).push(dec_digit(n % 10))
    }
}

/// The character of one decimal digit.
pub open spec fn dec_digit(d: nat) -> char
    recommends
        d < 10,
{
    if d == 0 {
        '0'
    } else if d == 1 {
        '1'
    } else if d == 2 {
        '2'
    } else if d == 3 {
        '3'
    } else if d == 4 {
        '4'
    } else if d == 5 {
        '5'
    } else if d == 6 {
        '6'
    } else if d == 7 {
        '7'
    } else if d == 8 {
        '8'
    } else {
        '9'
    }
}

fn digit_str(d: u64) -> (r: &'static str)
    requires
        d < 10,
    ensures
        r@ == seq![dec_digit(d as nat)],
{
    let r = if d == 0 {
        "0"
    } else if d == 1 {
        "1"
    } else if d == 2 {
        "2"
    } else if d == 3 {
        "3"
    } else if d == 4 {
        "4"
    } else if d == 5 {
        "5"
    } else if d == 6 {
        "6"
    } else if d == 7 {
        "7"
    } else if d == 8 {
        "8"
    } else {
        "9"
    };
    proof {
        reveal_strlit("0");
        reveal_strlit("1");
        reveal_strlit("2");
        reveal_strlit("3");
        reveal_strlit("4");
        reveal_strlit("5");
        reveal_strlit("6");
        reveal_strlit("7");
        reveal_strlit("8");
        reveal_strlit("9");
        assert(r@ =~= seq![dec_digit(d as nat)]);
    }
    r
}

/// Renders a number in decimal.
pub fn u64_to_dec(n: u64) -> (r: String)
    ensures
        r@ == dec_str(n as nat),
    decreases n,
{
    if n < 10 {
        digit_str(n).to_owned()
    } else {
        let s = u64_to_dec(n / 10).concat(digit_str(n % 10));
        proof {
            assert(s@ =~= dec_str((n / 10) as nat).push(dec_digit((n % 10) as nat)));
        }
        s
    }
}

/// What the bridge's notification loop does with one balance update for a
/// watched account.
#[derive(Clone, Copy, Debug, PartialEq, Eq, Structural)]
pub enum BalanceAction {
    /// Funds arrived: sweep them onward, notify with the received amount,
    /// and drop the subscription.
    ForwardAndUnsubscribe(u64),
    /// The balance fell: only drop the subscription.
    Unsubscribe,
    /// Nothing changed: keep watching.
    Ignore,
}

/// Decides what one balance notification means: a rise is `new - old`
/// received funds to forward, a fall only ends the watch, and an unchanged
/// balance does nothing.
pub fn balance_update_action(old_balance: u64, new_balance: u64) -> (r: BalanceAction)
    ensures
        new_balance > old_balance ==> r == BalanceAction::ForwardAndUnsubscribe(
            (new_balance - old_balance) as u64,
        ),
        new_balance < old_balance ==> r == BalanceAction::Unsubscribe,
        new_balance == old_balance ==> r == BalanceAction::Ignore,
{
    if new_balance > old_balance {
        BalanceAction::ForwardAndUnsubscribe(new_balance - old_balance)
    } else if new_balance < old_balance {
        BalanceAction::Unsubscribe
    } else {
        BalanceAction::Ignore
    }
}

/// The bridge service's failures.
#[derive(Debug)]
pub enum SolFailed {
    NotEnoughValue(u64),
    BadSolAddress(String),
    DecodeAndEncodeError(String),
    WebSocketError(String),
    SolClientError(String),
    ParseError(String),
    SolError(String),
}

impl SolFailed {
    /// The human-readable description of each failure.
    pub open spec fn message_spec(&self) -> Seq<char> {
        match *self {
            SolFailed::NotEnoughValue(i) => "There is no enough value "@ + dec_str(i as nat),
            SolFailed::BadSolAddress(ref err) => "Bad Sol Address: "@ + err@,
            SolFailed::DecodeAndEncodeError(ref err) => "Decode and decode keys error: "@ + err@,
            SolFailed::WebSocketError(ref i) => "WebSocket Error: "@ + i@,
            SolFailed::ParseError(ref i) => "Parse Error: "@ + i@,
            SolFailed::SolClientError(ref i) => "Solana Client Error: "@ + i@,
            SolFailed::SolError(ref i) => "SolFailed: "@ + i@,
        }
    }

    /// Renders the failure as text.
    pub fn message(&self) -> (r: String)
        ensures
            r@ == self.message_spec(),
    {
        match self {
            SolFailed::NotEnoughValue(i) => {
                let n = u64_to_dec(*i);
                "There is no enough value ".to_owned().concat(n.as_str())
            },
            SolFailed::BadSolAddress(err) => "Bad Sol Address: ".to_owned().concat(err.as_str()),
            SolFailed::DecodeAndEncodeError(err) => "Decode and decode keys error: ".to_owned().concat(
                err.as_str(),
            ),
            SolFailed::WebSocketError(i) => "WebSocket Error: ".to_owned().concat(i.as_str()),
            SolFailed::ParseError(i) => "Parse Error: ".to_owned().concat(i.as_str()),
            SolFailed::SolClientError(i) => "Solana Client Error: ".to_owned().concat(i.as_str()),
            SolFailed::SolError(i) => "SolFailed: ".to_owned().concat(i.as_str()),
        }
    }

    /// Lifts a node error into the service's failure type, keeping its
    /// description.
    pub fn from_node_error(err: Error) -> (r: SolFailed)
        ensures
            r matches SolFailed::SolError(m) && m@ == err.message_spec(),
    {
        SolFailed::SolError(err.message())
    }
}

} // verus!
