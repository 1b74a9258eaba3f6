//! Transactions: signed bundles of contract calls with their proofs and
//! per-call signatures. A transaction is immutable once signed; its identity
//! for observability is the content hash of its canonical serialized form.

use vstd::prelude::*;

verus! {

/// One invocation of an on-chain contract.
#[derive(Debug)]
pub struct ContractCall {
    pub contract_id: u64,
    pub data: Vec<u8>,
}

impl View for ContractCall {
    type V = (u64, Seq<u8>);

    open spec fn view(&self) -> (u64, Seq<u8>) {
        (self.contract_id, self.data@)
    }
}

/// The mathematical value of a transaction.
pub struct TransactionV {
    pub calls: Seq<(u64, Seq<u8>)>,
    pub proofs: Seq<Seq<u8>>,
    pub signatures: Seq<Seq<u8>>,
}

/// A signed bundle of contract calls, one proof blob and one signature per
/// call position.
#[derive(Debug)]
pub struct Transaction {
    pub calls: Vec<ContractCall>,
    pub proofs: Vec<Vec<u8>>,
    pub signatures: Vec<Vec<u8>>,
}

/// The views of a list of byte strings.
pub open spec fn bytes_list_view(v: Seq<Vec<u8>>) -> Seq<Seq<u8>> {
    v.map_values(|b: Vec<u8>| b@)
}

/// The views of a list of contract calls.
pub open spec fn calls_view(v: Seq<ContractCall>) -> Seq<(u64, Seq<u8>)> {
    v.map_values(|c: ContractCall| c@)
}

impl View for Transaction {
    type V = TransactionV;

    open spec fn view(&self) -> TransactionV {
        TransactionV {
            calls: calls_view(self.calls@),
            proofs: bytes_list_view(self.proofs@),
            signatures: bytes_list_view(self.signatures@),
        }
    }
}

impl ContractCall {
    /// A field-for-field copy.
    pub fn duplicate(&self) -> (r: ContractCall)
        ensures
            r@ == self@,
    {
        ContractCall { contract_id: self.contract_id, data: self.data.clone() }
    }
}

/// Copies a list of byte strings value for value.
pub fn duplicate_bytes_list(v: &Vec<Vec<u8>>) -> (r: Vec<Vec<u8>>)
    ensures
        bytes_list_view(r@) == bytes_list_view(v@),
{
    let mut out: Vec<Vec<u8>> = Vec::new();
    let mut i: usize = 0;
    while i < v.len()
        invariant
            i <= v.len(),
            out@.len() == i,
            forall|k: int| 0 <= k < i ==> out@[k]@ == v@[k]@,
        decreases v.len() - i,
    {
        out.push(v[i].clone());
        i = i + 1;
    }
    proof {
        assert(bytes_list_view(out@) =~= bytes_list_view(v@));
    }
    out
}

impl Transaction {
    /// A copy carrying the same abstract value.
    pub fn duplicate(&self) -> (r: Transaction)
        ensures
            r@ == self@,
    {
        let mut calls: Vec<ContractCall> = Vec::new();
        let mut i: usize = 0;
        while i < self.calls.len()
            invariant
                i <= self.calls.len(),
                calls@.len() == i,
                forall|k: int| 0 <= k < i ==> calls@[k]@ == self.calls@[k]@,
            decreases self.calls.len() - i,
        {
            calls.push(self.calls[i].duplicate());
            i = i + 1;
        }
        let r = Transaction {
            calls,
            proofs: duplicate_bytes_list(&self.proofs),
            signatures: duplicate_bytes_list(&self.signatures),
        };
        proof {
            assert(calls_view(r.calls@) =~= calls_view(self.calls@));
        }
        r
    }
}

} // verus!
