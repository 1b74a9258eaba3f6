//! Ledger state and the dry-run state transition.
//!
//! The canonical chain state is held behind a [`ValidatorState`]; an
//! admission check never touches it. Instead a snapshot is copied into a
//! [`MemoryState`] and the transition is applied there — a dry run whose
//! ephemeral copy is discarded afterwards, never merged back.
//!
//! Of the full transition rules this core keeps what is in its scope (the
//! proof system and signature checking are external collaborators): the
//! structural shape of a transaction and double-spend accounting. Each
//! call's payload acts as the spend marker it commits; a transition is
//! valid when the bundle is non-empty, carries one proof blob and one
//! signature per call, and no marker is empty, already spent, or spent
//! twice within the batch.

use vstd::prelude::*;

use crate::error::Error;
use crate::tx::{calls_view, duplicate_bytes_list, Transaction, TransactionV};

verus! {

/// Sequentially checks a transaction's calls against the spent markers in
/// `st`, spending each marker as it goes.
pub open spec fn calls_valid(st: Seq<Seq<u8>>, calls: Seq<(u64, Seq<u8>)>) -> bool
    decreases calls.len(),
{
    if calls.len() == 0 {
        true
    } else {
        let d = calls[0].1;
        d.len() > 0 && !st.contains(d) && calls_valid(st.push(d), calls.drop_first())
    }
}

/// The markers after a transaction's calls spend theirs, in order.
pub open spec fn calls_apply(st: Seq<Seq<u8>>, calls: Seq<(u64, Seq<u8>)>) -> Seq<Seq<u8>>
    decreases calls.len(),
{
    if calls.len() == 0 {
        st
    } else {
        calls_apply(st.push(calls[0].1), calls.drop_first())
    }
}

/// A transaction applies cleanly to the state `st`.
pub open spec fn tx_valid(st: Seq<Seq<u8>>, t: TransactionV) -> bool {
    &&& t.calls.len() > 0
    &&& t.proofs.len() == t.calls.len()
    &&& t.signatures.len() == t.calls.len()
    &&& calls_valid(st, t.calls)
}

/// The state after a transaction applies.
pub open spec fn tx_apply(st: Seq<Seq<u8>>, t: TransactionV) -> Seq<Seq<u8>> {
    calls_apply(st, t.calls)
}

/// A batch applies cleanly when each transaction applies to the state the
/// previous ones left.
pub open spec fn txs_valid(st: Seq<Seq<u8>>, txs: Seq<TransactionV>) -> bool
    decreases txs.len(),
{
    if txs.len() == 0 {
        true
    } else {
        tx_valid(st, txs[0]) && txs_valid(tx_apply(st, txs[0]), txs.drop_first())
    }
}

/// The views of a list of transactions.
pub open spec fn txs_view(v: Seq<Transaction>) -> Seq<TransactionV> {
    v.map_values(|t: Transaction| t@)
}

/// The chain state a transition reads and spends against: the markers
/// already spent, oldest first.
#[derive(Debug)]
pub struct StateMachine {
    pub nullifiers: Vec<Vec<u8>>,
}

impl View for StateMachine {
    type V = Seq<Seq<u8>>;

    open spec fn view(&self) -> Seq<Seq<u8>> {
        self.nullifiers@.map_values(|b: Vec<u8>| b@)
    }
}

impl StateMachine {
    /// A fresh state with nothing spent.
    pub fn new() -> (r: StateMachine)
        ensures
            r@ == Seq::<Seq<u8>>::empty(),
    {
        let r = StateMachine { nullifiers: Vec::new() };
        proof {
            assert(r@ =~= Seq::<Seq<u8>>::empty());
        }
        r
    }

    /// A value-for-value copy: the snapshot an admission check works on.
    pub fn duplicate(&self) -> (r: StateMachine)
        ensures
            r@ == self@,
    {
        let r = StateMachine { nullifiers: duplicate_bytes_list(&self.nullifiers) };
        proof {
            assert(r@ =~= self@);
        }
        r
    }

    /// Whether `d` is already spent here.
    fn contains_marker(&self, d: &Vec<u8>) -> (r: bool)
        ensures
            r == self@.contains(d@),
    {
        let mut i: usize = 0;
        while i < self.nullifiers.len()
            invariant
                i <= self.nullifiers.len(),
                forall|k: int| 0 <= k < i ==> self@[k] != d@,
            decreases self.nullifiers.len() - i,
        {
            if &self.nullifiers[i] == d {
                assert(self@[i as int] == d@);
                return true;
            }
            i = i + 1;
        }
        false
    }

    /// Checks one transaction against this state and, when it is valid,
    /// spends its markers. When it is not, the state is left partially
    /// advanced — callers apply transitions only to ephemeral copies they
    /// then discard on failure.
    fn apply_tx(&mut self, t: &Transaction) -> (r: bool)
        ensures
            r == tx_valid(old(self)@, t@),
            r ==> final(self)@ == tx_apply(old(self)@, t@),
    {
        let ghost orig = self@;
        let ghost cv = calls_view(t.calls@);
        if t.calls.len() == 0 {
            return false;
        }
        if t.proofs.len() != t.calls.len() {
            return false;
        }
        if t.signatures.len() != t.calls.len() {
            return false;
        }
        proof {
            assert(cv.skip(0) =~= cv);
        }
        let mut i: usize = 0;
        while i < t.calls.len()
            invariant
                i <= t.calls.len(),
                orig == old(self)@,
                cv == calls_view(t.calls@),
                t@.proofs.len() == t@.calls.len(),
                t@.signatures.len() == t@.calls.len(),
                calls_valid(orig, cv) == calls_valid(self@, cv.skip(i as int)),
                calls_apply(orig, cv) == calls_apply(self@, cv.skip(i as int)),
            decreases t.calls.len() - i,
        {
            let ghost pre = self@;
            let d = &t.calls[i].data;
            proof {
                assert(cv.skip(i as int)[0] == cv[i as int]);
                assert(cv[i as int].1 == d@);
            }
            if d.len() == 0 {
                proof {
                    assert(!calls_valid(self@, cv.skip(i as int)));
                }
                return false;
            }
            if self.contains_marker(d) {
                proof {
                    assert(!calls_valid(self@, cv.skip(i as int)));
                }
                return false;
            }
            self.nullifiers.push(d.clone());
            i = i + 1;
            proof {
                assert(self@ =~= pre.push(d@));
                assert(cv.skip(i - 1).drop_first() =~= cv.skip(i as int));
                assert(calls_valid(pre, cv.skip(i - 1)) == calls_valid(self@, cv.skip(i as int)));
                assert(calls_apply(pre, cv.skip(i - 1)) == calls_apply(self@, cv.skip(i as int)));
            }
        }
        proof {
            assert(cv.skip(cv.len() as int) =~= Seq::<(u64, Seq<u8>)>::empty());
            assert(calls_valid(self@, cv.skip(cv.len() as int)));
            assert(calls_apply(orig, cv) == self@);
        }
        true
    }
}

/// An ephemeral, cheaply-copied snapshot of ledger state, used only to
/// simulate one batch of transactions and then discarded.
#[derive(Debug)]
pub struct MemoryState {
    pub st: StateMachine,
}

impl MemoryState {
    /// Copies the snapshot the dry run will consume.
    pub fn new(snapshot: StateMachine) -> (r: MemoryState)
        ensures
            r.st@ == snapshot@,
    {
        MemoryState { st: snapshot }
    }
}

/// The canonical chain state, as the one writer that applies committed
/// transitions sees it. Admission checks only ever copy it.
#[derive(Debug)]
pub struct ValidatorState {
    pub state_machine: StateMachine,
}

impl ValidatorState {
    pub fn new() -> (r: ValidatorState)
        ensures
            r.state_machine@ == Seq::<Seq<u8>>::empty(),
    {
        ValidatorState { state_machine: StateMachine::new() }
    }

    /// Dry-runs a batch against an ephemeral state copy: succeeds exactly
    /// when every transaction applies cleanly in order. The copy is
    /// consumed; no canonical state is read or written.
    pub fn validate_state_transitions(mem: MemoryState, txs: &Vec<Transaction>) -> (r: Result<
        (),
        Error,
    >)
        ensures
            r is Ok <==> txs_valid(mem.st@, txs_view(txs@)),
            r matches Err(e) ==> e is VerifyFailed,
    {
        let ghost tv = txs_view(txs@);
        proof {
            assert(tv.skip(0) =~= tv);
        }
        let mut state = mem.st;
        let mut i: usize = 0;
        while i < txs.len()
            invariant
                i <= txs.len(),
                tv == txs_view(txs@),
                txs_valid(mem.st@, tv) == txs_valid(state@, tv.skip(i as int)),
            decreases txs.len() - i,
        {
            let ghost pre = state@;
            proof {
                assert(tv.skip(i as int)[0] == tv[i as int]);
                assert(tv[i as int] == txs@[i as int]@);
            }
            let ok = state.apply_tx(&txs[i]);
            if !ok {
                proof {
                    assert(!txs_valid(pre, tv.skip(i as int)));
                }
                return Err(Error::VerifyFailed);
            }
            i = i + 1;
            proof {
                assert(tv.skip(i - 1).drop_first() =~= tv.skip(i as int));
            }
        }
        proof {
            assert(tv.skip(tv.len() as int) =~= Seq::<TransactionV>::empty());
        }
        Ok(())
    }
}

} // verus!
