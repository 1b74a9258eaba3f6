//! Core of a peer-to-peer blockchain node: the per-connection message
//! subscription bus, the protocol task lifecycle manager, the shared host
//! address book, the address-exchange protocol built on those, and the
//! transaction admission pipeline that dry-run-validates a transaction
//! against a snapshot of ledger state before broadcasting it.

pub mod addr;
pub mod channel;
pub mod encoding;
pub mod error;
pub mod hosts;
pub mod jobs;
pub mod ledger;
pub mod message;
pub mod protocol_address;
pub mod rpc;
pub mod serial;
pub mod sol;
pub mod tx;
