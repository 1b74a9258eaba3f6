//! Error taxonomy of the node core.
//!
//! `NetError` is the low-level network failure set, `Error` the node-wide
//! error type, and `RpcError` the structured error codes surfaced to RPC
//! callers of the transaction admission pipeline.

use vstd::prelude::*;

verus! {

/// `std::io::ErrorKind` appears as a payload of [`Error::Io`]; vstd gives it
/// no specification, so it is declared here and carried through opaquely.
#[verifier::external_type_specification]
#[verifier::external_body]
pub struct ExIoErrorKind(std::io::ErrorKind);

/// Relies on `std::io::ErrorKind`'s `Clone`: the type is `Copy`, so cloning
/// returns the value itself.
pub assume_specification[ <std::io::ErrorKind as Clone>::clone ](k: &std::io::ErrorKind) -> (r: std::io::ErrorKind)
    ensures
        r == *k,
;

/// Low-level network failures, raised by the channel and session layer.
#[derive(Clone, Copy, Debug)]
pub enum NetError {
    OperationFailed,
    ConnectFailed,
    ConnectTimeout,
    ChannelStopped,
    ChannelTimeout,
    ServiceStopped,
}

/// Node-wide error type.
#[derive(Clone, Debug)]
pub enum Error {
    Foo,
    CommitsDontAdd,
    InvalidCredential,
    TransactionPedersenCheckFailed,
    TokenAlreadySpent,
    InputTokenVerifyFailed,
    RangeproofPedersenMatchFailed,
    ProofsFailed,
    MissingProofs,
    Io(std::io::ErrorKind),
    /// VarInt was encoded in a non-minimal way
    NonMinimalVarInt,
    /// Parsing error
    ParseFailed(&'static str),
    ParseIntError,
    AsyncChannelError,
    MalformedPacket,
    AddrParseError,
    BadVariableRefType,
    BadOperationType,
    BadConstraintType,
    InvalidParamName,
    MissingParams,
    VMError,
    BadContract,
    Groth16Error,
    RusqliteError,
    OperationFailed,
    ConnectFailed,
    ConnectTimeout,
    ChannelStopped,
    ChannelTimeout,
    ServiceStopped,
    Utf8Error,
    NoteDecryptionFailed,
    ServicesError(&'static str),
    ZMQError,
    VerifyFailed,
    /// No decoder is registered for the requested message type on this
    /// connection: a configuration error raised by `subscribe`.
    DispatcherMissing,
    /// The connection is gone; raised by `receive` and `send`.
    ChannelClosed,
    /// The message could not be handed to the peer.
    SendFailed,
}

impl Error {
    /// The human-readable description of each error.
    pub open spec fn message_spec(&self) -> Seq<char> {
        match *self {
            Error::Foo => "foo"@,
            Error::CommitsDontAdd => "Commits don't add up properly"@,
            Error::InvalidCredential => "Credential is invalid"@,
            Error::TransactionPedersenCheckFailed => "Transaction pedersens for input and output don't sum up"@,
            Error::TokenAlreadySpent => "This input token is already spent"@,
            Error::InputTokenVerifyFailed => "Input token verify of credential failed"@,
            Error::RangeproofPedersenMatchFailed => "Rangeproof pedersen check for match failed"@,
            Error::ProofsFailed => "Proof validation failed"@,
            Error::MissingProofs => "Missing proofs"@,
            Error::Io(_) => "io error"@,
            Error::NonMinimalVarInt => "non-minimal varint"@,
            Error::ParseFailed(err) => "parse failed: "@ + err@,
            Error::ParseIntError => "Parse int error"@,
            Error::AsyncChannelError => "Async_channel error"@,
            Error::MalformedPacket => "Malformed packet"@,
            Error::AddrParseError => "Unable to parse address"@,
            Error::BadVariableRefType => "Bad variable ref type byte"@,
            Error::BadOperationType => "Bad operation type byte"@,
            Error::BadConstraintType => "Bad constraint type byte"@,
            Error::InvalidParamName => "Invalid param name"@,
            Error::MissingParams => "Missing params"@,
            Error::VMError => "VM error"@,
            Error::BadContract => "Contract is poorly defined"@,
            Error::Groth16Error => "Groth16 error"@,
            Error::RusqliteError => "Rusqlite error"@,
            Error::OperationFailed => "Operation failed"@,
            Error::ConnectFailed => "Connection failed"@,
            Error::ConnectTimeout => "Connection timed out"@,
            Error::ChannelStopped => "Channel stopped"@,
            Error::ChannelTimeout => "Channel timed out"@,
            Error::ServiceStopped => "Service stopped"@,
            Error::Utf8Error => "Malformed UTF8"@,
            Error::NoteDecryptionFailed => "Unable to decrypt mint note"@,
            Error::ServicesError(err) => "Services error: "@ + err@,
            Error::ZMQError => "ZMQ error"@,
            Error::VerifyFailed => "Verify failed"@,
            Error::DispatcherMissing => "Missing dispatcher"@,
            Error::ChannelClosed => "Channel closed"@,
            Error::SendFailed => "Send failed"@,
        }
    }

    /// Renders the error as text.
    pub fn message(&self) -> (r: String)
        ensures
            r@ == self.message_spec(),
    {
        match *self {
            Error::Foo => "foo".to_owned(),
            Error::CommitsDontAdd => "Commits don't add up properly".to_owned(),
            Error::InvalidCredential => "Credential is invalid".to_owned(),
            Error::TransactionPedersenCheckFailed => "Transaction pedersens for input and output don't sum up".to_owned(),
            Error::TokenAlreadySpent => "This input token is already spent".to_owned(),
            Error::InputTokenVerifyFailed => "Input token verify of credential failed".to_owned(),
            Error::RangeproofPedersenMatchFailed => "Rangeproof pedersen check for match failed".to_owned(),
            Error::ProofsFailed => "Proof validation failed".to_owned(),
            Error::MissingProofs => "Missing proofs".to_owned(),
            Error::Io(_) => "io error".to_owned(),
            Error::NonMinimalVarInt => "non-minimal varint".to_owned(),
            Error::ParseFailed(err) => "parse failed: ".to_owned().concat(err),
            Error::ParseIntError => "Parse int error".to_owned(),
            Error::AsyncChannelError => "Async_channel error".to_owned(),
            Error::MalformedPacket => "Malformed packet".to_owned(),
            Error::AddrParseError => "Unable to parse address".to_owned(),
            Error::BadVariableRefType => "Bad variable ref type byte".to_owned(),
            Error::BadOperationType => "Bad operation type byte".to_owned(),
            Error::BadConstraintType => "Bad constraint type byte".to_owned(),
            Error::InvalidParamName => "Invalid param name".to_owned(),
            Error::MissingParams => "Missing params".to_owned(),
            Error::VMError => "VM error".to_owned(),
            Error::BadContract => "Contract is poorly defined".to_owned(),
            Error::Groth16Error => "Groth16 error".to_owned(),
            Error::RusqliteError => "Rusqlite error".to_owned(),
            Error::OperationFailed => "Operation failed".to_owned(),
            Error::ConnectFailed => "Connection failed".to_owned(),
            Error::ConnectTimeout => "Connection timed out".to_owned(),
            Error::ChannelStopped => "Channel stopped".to_owned(),
            Error::ChannelTimeout => "Channel timed out".to_owned(),
            Error::ServiceStopped => "Service stopped".to_owned(),
            Error::Utf8Error => "Malformed UTF8".to_owned(),
            Error::NoteDecryptionFailed => "Unable to decrypt mint note".to_owned(),
            Error::ServicesError(err) => "Services error: ".to_owned().concat(err),
            Error::ZMQError => "ZMQ error".to_owned(),
            Error::VerifyFailed => "Verify failed".to_owned(),
            Error::DispatcherMissing => "Missing dispatcher".to_owned(),
            Error::ChannelClosed => "Channel closed".to_owned(),
            Error::SendFailed => "Send failed".to_owned(),
        }
    }
}

impl From<NetError> for Error {
    /// Lifts a network failure into the node-wide error type.
    fn from(err: NetError) -> (r: Error) {
        match err {
            NetError::OperationFailed => Error::OperationFailed,
            NetError::ConnectFailed => Error::ConnectFailed,
            NetError::ConnectTimeout => Error::ConnectTimeout,
            NetError::ChannelStopped => Error::ChannelStopped,
            NetError::ChannelTimeout => Error::ChannelTimeout,
            NetError::ServiceStopped => Error::ServiceStopped,
        }
    }
}

impl vstd::std_specs::convert::FromSpecImpl<NetError> for Error {
    open spec fn obeys_from_spec() -> bool {
        true
    }

    open spec fn from_spec(err: NetError) -> Error {
        match err {
            NetError::OperationFailed => Error::OperationFailed,
            NetError::ConnectFailed => Error::ConnectFailed,
            NetError::ConnectTimeout => Error::ConnectTimeout,
            NetError::ChannelStopped => Error::ChannelStopped,
            NetError::ChannelTimeout => Error::ChannelTimeout,
            NetError::ServiceStopped => Error::ServiceStopped,
        }
    }
}

/// Structured error codes for RPC callers of the admission pipeline.
#[derive(Clone, Copy, Debug)]
pub enum RpcError {
    /// The request itself is malformed (wrong arity or argument kinds).
    InvalidParams,
    /// The node's ledger view is not caught up; try again later.
    NotYetSynced,
    /// The destination identity could not be decoded.
    InvalidAddressParam,
    /// An argument's encoding could not be parsed.
    ParseError,
    /// The transaction builder failed.
    TxBuildFail,
    /// No broadcast path was available, or broadcasting failed.
    TxBroadcastFail,
    /// The dry-run simulation rejected the transaction.
    TxSimulationFail,
}

impl RpcError {
    /// The wire-facing code of each RPC error.
    pub open spec fn code_spec(&self) -> Seq<char> {
        match *self {
            RpcError::InvalidParams => "invalid-params"@,
            RpcError::NotYetSynced => "not-yet-synced"@,
            RpcError::InvalidAddressParam => "invalid-address-param"@,
            RpcError::ParseError => "parse-error"@,
            RpcError::TxBuildFail => "tx-build-fail"@,
            RpcError::TxBroadcastFail => "tx-broadcast-fail"@,
            RpcError::TxSimulationFail => "tx-simulation-fail"@,
        }
    }

    /// Renders the error code as text.
    pub fn code(&self) -> (r: String)
        ensures
            r@ == self.code_spec(),
    {
        match *self {
            RpcError::InvalidParams => "invalid-params".to_owned(),
            RpcError::NotYetSynced => "not-yet-synced".to_owned(),
            RpcError::InvalidAddressParam => "invalid-address-param".to_owned(),
            RpcError::ParseError => "parse-error".to_owned(),
            RpcError::TxBuildFail => "tx-build-fail".to_owned(),
            RpcError::TxBroadcastFail => "tx-broadcast-fail".to_owned(),
            RpcError::TxSimulationFail => "tx-simulation-fail".to_owned(),
        }
    }
}

} // verus!
