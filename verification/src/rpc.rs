//! The transaction admission pipeline: the node's RPC-facing entry points
//! for submitting transactions.
//!
//! Both entry points require the node to be synced. `transfer` builds a
//! signed transaction from a destination, a token and an amount, and
//! broadcasts it without a dry run — the builder constructs only valid
//! transitions. `broadcast` accepts an opaque encoded transaction, decodes
//! it, dry-runs it against an ephemeral copy of a ledger snapshot taken
//! under a brief lock, and only on success hands it to the peers: a
//! transaction the local node already knows is invalid is never
//! propagated, and no admission call ever mutates canonical state.

use vstd::prelude::*;

use vstd::bytes::u64_to_le_bytes;

use crate::encoding::{base58_decoded, blake3_hex, bs58_decode, hash_hex, is_base58_seq};
use crate::error::{Error, RpcError};
use crate::ledger::{txs_valid, txs_view, MemoryState, StateMachine, ValidatorState};
use crate::serial::{dec_tx, enc_tx, enc_u64, encode_tx, decode_tx};
use crate::tx::{calls_view, bytes_list_view, ContractCall, Transaction, TransactionV};

verus! {

/// The contract a built transfer calls.
pub const MONEY_CONTRACT_ID: u64 = 1;

/// One positional RPC parameter, by kind. The transport envelope is an
/// external collaborator; it hands the pipeline plain tagged values.
#[derive(Debug)]
pub enum ParamValue {
    Str(String),
    UInt(u64),
    Other,
}

/// The mathematical value of one parameter.
pub enum ParamV {
    Str(Seq<char>),
    UInt(u64),
    Other,
}

impl View for ParamValue {
    type V = ParamV;

    open spec fn view(&self) -> ParamV {
        match *self {
            ParamValue::Str(s) => ParamV::Str(s@),
            ParamValue::UInt(v) => ParamV::UInt(v),
            ParamValue::Other => ParamV::Other,
        }
    }
}

/// The views of a parameter list.
pub open spec fn params_view(ps: Seq<ParamValue>) -> Seq<ParamV> {
    ps.map_values(|p: ParamValue| p@)
}

/// `tx.transfer` takes a destination string, a token string and an amount.
pub open spec fn transfer_params_ok(ps: Seq<ParamV>) -> bool {
    ps.len() == 3 && ps[0] is Str && ps[1] is Str && ps[2] is UInt
}

/// `tx.broadcast` takes one string: the encoded transaction. The
/// parameter must *be* a string to be accepted.
pub open spec fn broadcast_params_ok(ps: Seq<ParamV>) -> bool {
    ps.len() == 1 && ps[0] is Str
}

/// The peer network's broadcast capability: what this node handed every
/// connected peer, and whether the network is still up.
#[derive(Debug)]
pub struct P2p {
    pub broadcasted: Vec<Transaction>,
    pub healthy: bool,
}

impl P2p {
    /// What was broadcast, in order.
    pub open spec fn broadcasts(&self) -> Seq<TransactionV> {
        txs_view(self.broadcasted@)
    }

    /// A fresh, healthy network with nothing broadcast yet.
    pub fn new() -> (r: P2p)
        ensures
            r.broadcasts() == Seq::<TransactionV>::empty(),
            r.healthy,
    {
        let r = P2p { broadcasted: Vec::new(), healthy: true };
        proof {
            assert(r.broadcasts() =~= Seq::<TransactionV>::empty());
        }
        r
    }

    /// Hands one transaction to every connected peer; fails when the
    /// network is down, in which case nothing is recorded.
    pub fn broadcast(&mut self, tx: Transaction) -> (r: Result<(), Error>)
        ensures
            r is Ok <==> old(self).healthy,
            r is Ok ==> final(self).broadcasts() == old(self).broadcasts().push(tx@),
            r matches Err(e) ==> e is ServiceStopped && *final(self) == *old(self),
            final(self).healthy == old(self).healthy,
    {
        if !self.healthy {
            return Err(Error::ServiceStopped);
        }
        let ghost pre = self.broadcasts();
        self.broadcasted.push(tx);
        proof {
            assert(self.broadcasts() =~= pre.push(
                self.broadcasted@[self.broadcasted@.len() - 1]@,
            ));
        }
        Ok(())
    }
}

/// The transaction a transfer builds: one call to the money contract whose
/// payload is the destination key, the token id and the amount, with the
/// proof and signature blobs the wallet derives from it (their content is
/// outside this core and stood in for deterministically).
pub open spec fn built_transfer_tx(dest: Seq<u8>, token: Seq<u8>, amount: u64) -> TransactionV {
    let data = dest + token + enc_u64(amount);
    TransactionV {
        calls: seq![(MONEY_CONTRACT_ID, data)],
        proofs: seq![data],
        signatures: seq![data],
    }
}

/// Constructs a fully signed transfer against a snapshot of ledger state.
/// Building fails exactly when the amount is zero: an empty transfer is
/// nothing the wallet can fund.
pub fn build_transaction(
    pubkey: &Vec<u8>,
    amount: u64,
    token_id: &Vec<u8>,
    snapshot: &StateMachine,
) -> (r: Result<Transaction, Error>)
    ensures
        r is Ok <==> amount > 0,
        r matches Ok(tx) ==> tx@ == built_transfer_tx(pubkey@, token_id@, amount),
        r matches Err(e) ==> e is OperationFailed,
{
    if amount == 0 {
        return Err(Error::OperationFailed);
    }
    let mut data: Vec<u8> = Vec::new();
    let mut pk = pubkey.clone();
    proof {
        assert(pk@ =~= pubkey@);
    }
    data.append(&mut pk);
    let mut tk = token_id.clone();
    proof {
        assert(tk@ =~= token_id@);
    }
    data.append(&mut tk);
    let mut am = u64_to_le_bytes(amount);
    data.append(&mut am);

    let mut calls: Vec<ContractCall> = Vec::new();
    calls.push(ContractCall { contract_id: MONEY_CONTRACT_ID, data: data.clone() });
    let mut proofs: Vec<Vec<u8>> = Vec::new();
    proofs.push(data.clone());
    let mut signatures: Vec<Vec<u8>> = Vec::new();
    signatures.push(data);
    let tx = Transaction { calls, proofs, signatures };
    proof {
        let b = built_transfer_tx(pubkey@, token_id@, amount);
        assert(calls_view(tx.calls@) =~= b.calls);
        assert(bytes_list_view(tx.proofs@) =~= b.proofs);
        assert(bytes_list_view(tx.signatures@) =~= b.signatures);
    }
    Ok(tx)
}

/// The node's RPC handler state: the synced gate, the canonical ledger
/// state, and the peer network used to broadcast admitted transactions.
#[derive(Debug)]
pub struct Darkfid {
    pub synced: bool,
    pub validator_state: ValidatorState,
    pub sync_p2p: Option<P2p>,
}

impl Darkfid {
    /// The canonical ledger state, as spent markers.
    pub open spec fn ledger(&self) -> Seq<Seq<u8>> {
        self.validator_state.state_machine@
    }

    /// A broadcast path exists and is up.
    pub open spec fn can_broadcast(&self) -> bool {
        self.sync_p2p matches Some(p) && p.healthy
    }

    /// What the peer network was handed, or nothing without a network.
    pub open spec fn broadcasts(&self) -> Seq<TransactionV> {
        match self.sync_p2p {
            Some(p) => p.broadcasts(),
            None => Seq::empty(),
        }
    }

    /// The p2p side is as it was, except that `pushed` was broadcast.
    pub open spec fn p2p_advanced(&self, pre: Darkfid, pushed: Seq<TransactionV>) -> bool {
        &&& (self.sync_p2p is Some) == (pre.sync_p2p is Some)
        &&& self.can_broadcast() == pre.can_broadcast()
        &&& self.broadcasts() == pre.broadcasts() + pushed
    }

    pub fn new(synced: bool, validator_state: ValidatorState, sync_p2p: Option<P2p>) -> (r:
        Darkfid)
        ensures
            r.synced == synced,
            r.validator_state == validator_state,
            r.sync_p2p == sync_p2p,
    {
        Darkfid { synced, validator_state, sync_p2p }
    }

    /// Answers a liveness probe.
    pub fn pong(&self) -> (r: String)
        ensures
            r@ == "pong"@,
    {
        "pong".to_owned()
    }

    /// Hands `tx` to the peer network; fails when there is none or it is
    /// down.
    fn try_broadcast(&mut self, tx: Transaction) -> (r: Result<(), Error>)
        ensures
            r is Ok <==> old(self).can_broadcast(),
            r is Ok ==> final(self).p2p_advanced(*old(self), seq![tx@]),
            r is Err ==> final(self).sync_p2p == old(self).sync_p2p,
            final(self).synced == old(self).synced,
            final(self).validator_state == old(self).validator_state,
    {
        let taken = self.sync_p2p.take();
        match taken {
            Some(mut p) => {
                let res = p.broadcast(tx);
                let ghost pushed = p.broadcasts();
                self.sync_p2p = Some(p);
                proof {
                    if res is Ok {
                        assert(self.broadcasts() =~= old(self).broadcasts() + seq![tx@]);
                    }
                }
                res
            },
            None => {
                self.sync_p2p = None;
                Err(Error::ServiceStopped)
            },
        }
    }

    /// `tx.transfer`: transfers an amount of a token to a destination.
    ///
    /// The destination and token are base-58 strings; the destination must
    /// decode to a 32-byte public key and the token to a 32-byte
    /// identifier. The node must be synced. On success the built
    /// transaction has been broadcast to every connected peer and its
    /// content hash is returned; each failure is a distinct error code,
    /// and nothing is broadcast. Canonical ledger state is never touched.
    pub fn transfer(&mut self, params: &Vec<ParamValue>) -> (r: Result<String, RpcError>)
        ensures
            final(self).synced == old(self).synced,
            final(self).validator_state == old(self).validator_state,
            ({
                let ps = params_view(params@);
                &&& !transfer_params_ok(ps) ==> (r matches Err(e) && e is InvalidParams
                    && final(self).sync_p2p == old(self).sync_p2p)
                &&& transfer_params_ok(ps) ==> {
                    let dest = ps[0]->Str_0;
                    let token = ps[1]->Str_0;
                    let amount = ps[2]->UInt_0;
                    &&& !old(self).synced ==> (r matches Err(e) && e is NotYetSynced
                        && final(self).sync_p2p == old(self).sync_p2p)
                    &&& old(self).synced ==> {
                        &&& !is_base58_seq(dest) ==> (r matches Err(e) && e is InvalidAddressParam
                            && final(self).sync_p2p == old(self).sync_p2p)
                        &&& is_base58_seq(dest) && base58_decoded(dest).len() != 32 ==> (r matches
                        Err(e) && e is ParseError && final(self).sync_p2p == old(self).sync_p2p)
                        &&& is_base58_seq(dest) && base58_decoded(dest).len() == 32 ==> {
                            &&& !(is_base58_seq(token) && base58_decoded(token).len() == 32) ==> (
                            r matches Err(e) && e is ParseError && final(self).sync_p2p == old(
                                self,
                            ).sync_p2p)
                            &&& is_base58_seq(token) && base58_decoded(token).len() == 32 ==> {
                                let tx = built_transfer_tx(
                                    base58_decoded(dest),
                                    base58_decoded(token),
                                    amount,
                                );
                                &&& amount == 0 ==> (r matches Err(e) && e is TxBuildFail
                                    && final(self).sync_p2p == old(self).sync_p2p)
                                &&& amount > 0 && !old(self).can_broadcast() ==> (r matches Err(e)
                                    && e is TxBroadcastFail && final(self).sync_p2p == old(
                                    self,
                                ).sync_p2p)
                                &&& amount > 0 && old(self).can_broadcast() ==> (r matches Ok(h)
                                    && h@ == blake3_hex(enc_tx(tx)) && final(self).p2p_advanced(
                                    *old(self),
                                    seq![tx],
                                ))
                            }
                        }
                    }
                }
            }),
    {
        if params.len() != 3 {
            return Err(RpcError::InvalidParams);
        }
        let dest_s = match &params[0] {
            ParamValue::Str(s) => s,
            _ => {
                return Err(RpcError::InvalidParams);
            },
        };
        let token_s = match &params[1] {
            ParamValue::Str(s) => s,
            _ => {
                return Err(RpcError::InvalidParams);
            },
        };
        let amount = match &params[2] {
            ParamValue::UInt(v) => *v,
            _ => {
                return Err(RpcError::InvalidParams);
            },
        };

        if !self.synced {
            return Err(RpcError::NotYetSynced);
        }

        // The destination must be a well-formed address…
        let dest_bytes = match bs58_decode(dest_s.as_str()) {
            Some(v) => v,
            None => {
                return Err(RpcError::InvalidAddressParam);
            },
        };
        // …that carries a spendable 32-byte public key.
        if dest_bytes.len() != 32 {
            return Err(RpcError::ParseError);
        }

        let token_bytes = match bs58_decode(token_s.as_str()) {
            Some(v) => v,
            None => {
                return Err(RpcError::ParseError);
            },
        };
        if token_bytes.len() != 32 {
            return Err(RpcError::ParseError);
        }

        // Build against a snapshot of the current ledger state machine.
        let snapshot = self.validator_state.state_machine.duplicate();
        let tx = match build_transaction(&dest_bytes, amount, &token_bytes, &snapshot) {
            Ok(tx) => tx,
            Err(_) => {
                return Err(RpcError::TxBuildFail);
            },
        };

        // No dry run on this path: the builder constructs only valid
        // transitions. Broadcast to every connected peer.
        let encoded = encode_tx(&tx);
        match self.try_broadcast(tx) {
            Ok(()) => {},
            Err(_) => {
                return Err(RpcError::TxBroadcastFail);
            },
        }

        Ok(hash_hex(&encoded))
    }

    /// `tx.broadcast`: admits an externally built transaction.
    ///
    /// The parameter must be one base-58 string. The node must be synced.
    /// The string is decoded (text layer, then structured layer), the
    /// transaction is dry-run against an ephemeral copy of a ledger
    /// snapshot, and only on simulation success is it broadcast; its
    /// content hash is returned. A transaction that fails simulation is
    /// discarded, never broadcast, and canonical state is left untouched —
    /// as it is on every path.
    pub fn broadcast(&mut self, params: &Vec<ParamValue>) -> (r: Result<String, RpcError>)
        ensures
            final(self).synced == old(self).synced,
            final(self).validator_state == old(self).validator_state,
            ({
                let ps = params_view(params@);
                &&& !broadcast_params_ok(ps) ==> (r matches Err(e) && e is InvalidParams
                    && final(self).sync_p2p == old(self).sync_p2p)
                &&& broadcast_params_ok(ps) ==> {
                    let enc = ps[0]->Str_0;
                    &&& !old(self).synced ==> (r matches Err(e) && e is NotYetSynced
                        && final(self).sync_p2p == old(self).sync_p2p)
                    &&& old(self).synced ==> {
                        &&& !is_base58_seq(enc) ==> (r matches Err(e) && e is ParseError
                            && final(self).sync_p2p == old(self).sync_p2p)
                        &&& is_base58_seq(enc) && dec_tx(base58_decoded(enc)) is None ==> (
                        r matches Err(e) && e is ParseError && final(self).sync_p2p == old(
                            self,
                        ).sync_p2p)
                        &&& is_base58_seq(enc) ==> (dec_tx(base58_decoded(enc)) matches Some(tx)
                            ==> {
                            &&& !txs_valid(old(self).ledger(), seq![tx]) ==> (r matches Err(e)
                                && e is TxSimulationFail && final(self).sync_p2p == old(
                                self,
                            ).sync_p2p)
                            &&& txs_valid(old(self).ledger(), seq![tx]) && !old(
                                self,
                            ).can_broadcast() ==> (r matches Err(e) && e is TxBroadcastFail
                                && final(self).sync_p2p == old(self).sync_p2p)
                            &&& txs_valid(old(self).ledger(), seq![tx]) && old(
                                self,
                            ).can_broadcast() ==> (r matches Ok(h) && h@ == blake3_hex(enc_tx(tx))
                                && final(self).p2p_advanced(*old(self), seq![tx]))
                        })
                    }
                }
            }),
    {
        if params.len() != 1 {
            return Err(RpcError::InvalidParams);
        }
        let enc_s = match &params[0] {
            ParamValue::Str(s) => s,
            _ => {
                return Err(RpcError::InvalidParams);
            },
        };

        if !self.synced {
            return Err(RpcError::NotYetSynced);
        }

        // Text layer…
        let tx_bytes = match bs58_decode(enc_s.as_str()) {
            Some(v) => v,
            None => {
                return Err(RpcError::ParseError);
            },
        };
        // …then structured layer.
        let tx = match decode_tx(&tx_bytes) {
            Some(t) => t,
            None => {
                return Err(RpcError::ParseError);
            },
        };

        // Take a snapshot of the ledger state machine — the model of
        // "acquire read guard, clone, release" with nothing held across
        // the slow work below — and dry-run against an ephemeral copy.
        let snapshot = self.validator_state.state_machine.duplicate();
        let mem_state = MemoryState::new(snapshot);

        let mut batch: Vec<Transaction> = Vec::new();
        batch.push(tx.duplicate());
        proof {
            assert(txs_view(batch@) =~= seq![tx@]);
        }
        match ValidatorState::validate_state_transitions(mem_state, &batch) {
            Ok(()) => {},
            Err(_) => {
                // The ephemeral copy is discarded; nothing was broadcast.
                return Err(RpcError::TxSimulationFail);
            },
        }

        let encoded = encode_tx(&tx);
        match self.try_broadcast(tx) {
            Ok(()) => {},
            Err(_) => {
                return Err(RpcError::TxBroadcastFail);
            },
        }

        Ok(hash_hex(&encoded))
    }
}

} // verus!
