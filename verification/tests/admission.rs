//! Tests of the transaction admission pipeline, the canonical codec and
//! the content hash.

use darkfid_core::error::{Error, NetError, RpcError};
use darkfid_core::ledger::{StateMachine, ValidatorState};
use darkfid_core::rpc::{Darkfid, P2p, ParamValue, MONEY_CONTRACT_ID};
use darkfid_core::serial::{decode_tx, encode_tx};
use darkfid_core::sol::{balance_update_action, u64_to_dec, BalanceAction, SolFailed};
use darkfid_core::tx::{ContractCall, Transaction};

fn fresh_node(synced: bool) -> Darkfid {
    Darkfid::new(synced, ValidatorState::new(), Some(P2p::new()))
}

fn p_str(s: &str) -> ParamValue {
    ParamValue::Str(s.to_string())
}

fn sample_tx(marker: &[u8]) -> Transaction {
    Transaction {
        calls: vec![ContractCall { contract_id: MONEY_CONTRACT_ID, data: marker.to_vec() }],
        proofs: vec![vec![0xAA]],
        signatures: vec![vec![0xBB]],
    }
}

fn valid_transfer_params() -> Vec<ParamValue> {
    let dest = bs58::encode([7u8; 32]).into_string();
    let token = bs58::encode([9u8; 32]).into_string();
    vec![p_str(&dest), p_str(&token), ParamValue::UInt(12345)]
}

#[test]
fn transfer_returns_hash_and_broadcasts_once() {
    // A valid 32-byte destination, a valid token, amount 12345, synced,
    // one peer network: the call returns 64 hex characters and the peers
    // got exactly one broadcast of that transaction.
    let mut node = fresh_node(true);
    let hash = node.transfer(&valid_transfer_params()).unwrap();
    assert_eq!(hash.len(), 64);
    assert!(hash.chars().all(|c| c.is_ascii_hexdigit() && !c.is_ascii_uppercase()));

    let p2p = node.sync_p2p.as_ref().unwrap();
    assert_eq!(p2p.broadcasted.len(), 1);
    let sent = &p2p.broadcasted[0];
    assert_eq!(sent.calls.len(), 1);
    assert_eq!(sent.calls[0].contract_id, MONEY_CONTRACT_ID);
    // The payload is destination key, token id, then the amount.
    let mut expected = [7u8; 32].to_vec();
    expected.extend_from_slice(&[9u8; 32]);
    expected.extend_from_slice(&12345u64.to_le_bytes());
    assert_eq!(sent.calls[0].data, expected);

    // The returned id is the digest of the canonical encoding.
    let recomputed = blake3::hash(&encode_tx(sent)).to_hex().as_str().to_string();
    assert_eq!(hash, recomputed);
}

#[test]
fn transfer_rejects_malformed_params() {
    let mut node = fresh_node(true);
    let r = node.transfer(&vec![p_str("x"), p_str("y")]);
    assert!(matches!(r, Err(RpcError::InvalidParams)));
    let r = node.transfer(&vec![ParamValue::UInt(1), p_str("y"), ParamValue::UInt(1)]);
    assert!(matches!(r, Err(RpcError::InvalidParams)));
    let r = node.transfer(&vec![p_str("x"), p_str("y"), ParamValue::Other]);
    assert!(matches!(r, Err(RpcError::InvalidParams)));
    assert!(node.sync_p2p.as_ref().unwrap().broadcasted.is_empty());
}

#[test]
fn transfer_distinguishes_address_and_token_errors() {
    let mut node = fresh_node(true);
    let token = bs58::encode([9u8; 32]).into_string();

    // Not base-58 at all: the address itself is rejected.
    let r = node.transfer(&vec![p_str("0OIl"), p_str(&token), ParamValue::UInt(5)]);
    assert!(matches!(r, Err(RpcError::InvalidAddressParam)));

    // Base-58, but not a 32-byte key underneath.
    let short = bs58::encode([7u8; 5]).into_string();
    let r = node.transfer(&vec![p_str(&short), p_str(&token), ParamValue::UInt(5)]);
    assert!(matches!(r, Err(RpcError::ParseError)));

    // A bad token is a parse error too.
    let dest = bs58::encode([7u8; 32]).into_string();
    let r = node.transfer(&vec![p_str(&dest), p_str("0OIl"), ParamValue::UInt(5)]);
    assert!(matches!(r, Err(RpcError::ParseError)));
    let short_token = bs58::encode([9u8; 4]).into_string();
    let r = node.transfer(&vec![p_str(&dest), p_str(&short_token), ParamValue::UInt(5)]);
    assert!(matches!(r, Err(RpcError::ParseError)));

    assert!(node.sync_p2p.as_ref().unwrap().broadcasted.is_empty());
}

#[test]
fn transfer_of_zero_fails_to_build() {
    let mut node = fresh_node(true);
    let dest = bs58::encode([7u8; 32]).into_string();
    let token = bs58::encode([9u8; 32]).into_string();
    let r = node.transfer(&vec![p_str(&dest), p_str(&token), ParamValue::UInt(0)]);
    assert!(matches!(r, Err(RpcError::TxBuildFail)));
    assert!(node.sync_p2p.as_ref().unwrap().broadcasted.is_empty());
}

#[test]
fn transfer_without_broadcast_path_fails() {
    let mut node = Darkfid::new(true, ValidatorState::new(), None);
    let r = node.transfer(&valid_transfer_params());
    assert!(matches!(r, Err(RpcError::TxBroadcastFail)));

    let mut down = Darkfid::new(
        true,
        ValidatorState::new(),
        Some(P2p { broadcasted: Vec::new(), healthy: false }),
    );
    let r = down.transfer(&valid_transfer_params());
    assert!(matches!(r, Err(RpcError::TxBroadcastFail)));
    assert!(down.sync_p2p.as_ref().unwrap().broadcasted.is_empty());
}

#[test]
fn broadcast_of_unparseable_base58_is_a_parse_error() {
    // "0", "O", "I" and "l" are outside the alphabet.
    let mut node = fresh_node(true);
    let r = node.broadcast(&vec![p_str("0OIl not base58")]);
    assert!(matches!(r, Err(RpcError::ParseError)));
    assert_eq!(RpcError::ParseError.code(), "parse-error");
    assert!(node.sync_p2p.as_ref().unwrap().broadcasted.is_empty());
}

#[test]
fn broadcast_while_not_synced_is_rejected_first() {
    let mut node = fresh_node(false);
    // Even an unparseable payload is not looked at.
    let r = node.broadcast(&vec![p_str("0OIl")]);
    assert!(matches!(r, Err(RpcError::NotYetSynced)));
    assert_eq!(RpcError::NotYetSynced.code(), "not-yet-synced");
    assert!(node.sync_p2p.as_ref().unwrap().broadcasted.is_empty());
}

#[test]
fn broadcast_requires_the_parameter_to_be_a_string() {
    // The one parameter must *be* a string; any other kind is malformed.
    let mut node = fresh_node(true);
    let r = node.broadcast(&vec![ParamValue::UInt(5)]);
    assert!(matches!(r, Err(RpcError::InvalidParams)));
    let r = node.broadcast(&vec![ParamValue::Other]);
    assert!(matches!(r, Err(RpcError::InvalidParams)));
    let r = node.broadcast(&vec![]);
    assert!(matches!(r, Err(RpcError::InvalidParams)));
    // A string parameter passes validation and reaches decoding.
    let r = node.broadcast(&vec![p_str("0OIl")]);
    assert!(matches!(r, Err(RpcError::ParseError)));
}

#[test]
fn broadcast_admits_a_valid_transaction() {
    let mut node = fresh_node(true);
    let tx = sample_tx(&[1, 2, 3]);
    let encoded = bs58::encode(encode_tx(&tx)).into_string();
    let hash = node.broadcast(&vec![p_str(&encoded)]).unwrap();
    assert_eq!(hash.len(), 64);
    let p2p = node.sync_p2p.as_ref().unwrap();
    assert_eq!(p2p.broadcasted.len(), 1);
    assert_eq!(p2p.broadcasted[0].calls[0].data, vec![1, 2, 3]);
    let recomputed = blake3::hash(&encode_tx(&p2p.broadcasted[0]))
        .to_hex()
        .as_str()
        .to_string();
    assert_eq!(hash, recomputed);
}

#[test]
fn failed_simulation_broadcasts_nothing_and_leaves_the_ledger_untouched() {
    // The transaction's marker is already spent in canonical state, so
    // the dry run rejects it; the ledger stays byte-for-byte the same and
    // no broadcast happens.
    let mut state = StateMachine::new();
    state.nullifiers.push(vec![1, 2, 3]);
    let before = state.nullifiers.clone();
    let mut node = Darkfid::new(true, ValidatorState { state_machine: state }, Some(P2p::new()));

    let tx = sample_tx(&[1, 2, 3]);
    let encoded = bs58::encode(encode_tx(&tx)).into_string();
    let r = node.broadcast(&vec![p_str(&encoded)]);
    assert!(matches!(r, Err(RpcError::TxSimulationFail)));
    assert_eq!(RpcError::TxSimulationFail.code(), "tx-simulation-fail");

    assert_eq!(node.validator_state.state_machine.nullifiers, before);
    assert!(node.sync_p2p.as_ref().unwrap().broadcasted.is_empty());
}

#[test]
fn simulation_rejects_structurally_bad_transactions() {
    let mut node = fresh_node(true);

    // No calls at all.
    let empty = Transaction { calls: vec![], proofs: vec![], signatures: vec![] };
    let encoded = bs58::encode(encode_tx(&empty)).into_string();
    assert!(matches!(
        node.broadcast(&vec![p_str(&encoded)]),
        Err(RpcError::TxSimulationFail)
    ));

    // A signature count that does not match the calls.
    let unsigned = Transaction {
        calls: vec![ContractCall { contract_id: 1, data: vec![5] }],
        proofs: vec![vec![0]],
        signatures: vec![],
    };
    let encoded = bs58::encode(encode_tx(&unsigned)).into_string();
    assert!(matches!(
        node.broadcast(&vec![p_str(&encoded)]),
        Err(RpcError::TxSimulationFail)
    ));

    // A double spend within one bundle.
    let double = Transaction {
        calls: vec![
            ContractCall { contract_id: 1, data: vec![5] },
            ContractCall { contract_id: 2, data: vec![5] },
        ],
        proofs: vec![vec![0], vec![0]],
        signatures: vec![vec![1], vec![1]],
    };
    let encoded = bs58::encode(encode_tx(&double)).into_string();
    assert!(matches!(
        node.broadcast(&vec![p_str(&encoded)]),
        Err(RpcError::TxSimulationFail)
    ));

    assert!(node.sync_p2p.as_ref().unwrap().broadcasted.is_empty());
}

#[test]
fn hashing_the_same_encoding_twice_gives_the_same_id() {
    // Admission never commits to the canonical ledger, so the same
    // transaction can be admitted twice; both runs return the same hash.
    let mut node = fresh_node(true);
    let tx = sample_tx(&[4, 4, 4]);
    let encoded = bs58::encode(encode_tx(&tx)).into_string();
    let h1 = node.broadcast(&vec![p_str(&encoded)]).unwrap();
    let h2 = node.broadcast(&vec![p_str(&encoded)]).unwrap();
    assert_eq!(h1, h2);

    // Structurally different transactions get different ids.
    let other = sample_tx(&[4, 4, 5]);
    let other_encoded = bs58::encode(encode_tx(&other)).into_string();
    let h3 = node.broadcast(&vec![p_str(&other_encoded)]).unwrap();
    assert_ne!(h1, h3);
}

#[test]
fn codec_round_trips_and_rejects_garbage() {
    let tx = Transaction {
        calls: vec![
            ContractCall { contract_id: 77, data: vec![1, 2, 3, 4] },
            ContractCall { contract_id: 0, data: vec![9] },
        ],
        proofs: vec![vec![], vec![0xFE, 0xFF]],
        signatures: vec![vec![0x01], vec![]],
    };
    let bytes = encode_tx(&tx);
    let back = decode_tx(&bytes).unwrap();
    assert_eq!(back.calls.len(), 2);
    assert_eq!(back.calls[0].contract_id, 77);
    assert_eq!(back.calls[0].data, vec![1, 2, 3, 4]);
    assert_eq!(back.calls[1].contract_id, 0);
    assert_eq!(back.proofs, tx.proofs);
    assert_eq!(back.signatures, tx.signatures);

    // Trailing bytes are not canonical.
    let mut padded = bytes.clone();
    padded.push(0);
    assert!(decode_tx(&padded).is_none());

    // A truncated input fails.
    let truncated = bytes[..bytes.len() - 1].to_vec();
    assert!(decode_tx(&truncated).is_none());

    // A length field that overruns the input fails.
    assert!(decode_tx(&vec![0xFF; 8]).is_none());
}

#[test]
fn pong_answers() {
    let node = fresh_node(true);
    assert_eq!(node.pong(), "pong");
}

#[test]
fn error_codes_and_messages_render() {
    assert_eq!(RpcError::InvalidParams.code(), "invalid-params");
    assert_eq!(RpcError::InvalidAddressParam.code(), "invalid-address-param");
    assert_eq!(RpcError::TxBuildFail.code(), "tx-build-fail");
    assert_eq!(RpcError::TxBroadcastFail.code(), "tx-broadcast-fail");

    assert_eq!(Error::ChannelStopped.message(), "Channel stopped");
    assert_eq!(Error::ParseFailed("bad byte").message(), "parse failed: bad byte");
    assert_eq!(Error::ServicesError("gateway").message(), "Services error: gateway");
    assert_eq!(Error::DispatcherMissing.message(), "Missing dispatcher");

    let e: Error = NetError::ChannelStopped.into();
    assert!(matches!(e, Error::ChannelStopped));
    let e: Error = NetError::ServiceStopped.into();
    assert!(matches!(e, Error::ServiceStopped));
}

#[test]
fn bridge_balance_decisions() {
    assert_eq!(balance_update_action(100, 150), BalanceAction::ForwardAndUnsubscribe(50));
    assert_eq!(balance_update_action(150, 100), BalanceAction::Unsubscribe);
    assert_eq!(balance_update_action(100, 100), BalanceAction::Ignore);
    assert_eq!(balance_update_action(0, u64::MAX), BalanceAction::ForwardAndUnsubscribe(u64::MAX));
}

#[test]
fn bridge_failures_render() {
    assert_eq!(
        SolFailed::NotEnoughValue(12345).message(),
        "There is no enough value 12345"
    );
    assert_eq!(
        SolFailed::WebSocketError("timed out".to_string()).message(),
        "WebSocket Error: timed out"
    );
    let lifted = SolFailed::from_node_error(Error::ZMQError);
    assert_eq!(lifted.message(), "SolFailed: ZMQ error");

    assert_eq!(u64_to_dec(0), "0");
    assert_eq!(u64_to_dec(10), "10");
    assert_eq!(u64_to_dec(90071), "90071");
    assert_eq!(u64_to_dec(u64::MAX), "18446744073709551615");
}
