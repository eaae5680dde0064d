//! Error taxonomy of the relay engine. Every failure path returns one of
//! these typed values to its caller; nothing is logged and dropped.

use vstd::prelude::*;

verus! {

/// Why a relay operation failed.
#[derive(Clone, Copy, Debug, PartialEq, Eq, Structural)]
pub enum RelayError {
    /// A chain read failed; locally retryable by the caller.
    QueryError,
    /// The wait bound elapsed before the source chain reached the target
    /// height; retryable after backoff.
    ConsensusNotReady,
    /// The tracked client is frozen; protocol-fatal for that client.
    ClientFrozen,
    /// The tracked client is expired; protocol-fatal for that client.
    ClientExpired,
    /// A client value of an unexpected concrete type was supplied.
    ClientTypeMismatch,
    /// The transaction was rejected by the chain.
    SubmissionError,
    /// The destination chain's batching worker has shut down; fatal for
    /// new requests.
    WorkerClosed,
    /// A channel end was not in the expected state.
    ChannelStateMismatch,
    /// A channel end was not in the expected flush status.
    FlushStatusMismatch,
    /// A channel end did not carry the expected version.
    VersionMismatch,
    /// A channel end did not carry the expected ordering.
    OrderingMismatch,
    /// A channel end did not carry the expected connection hops.
    ConnectionHopsMismatch,
    /// An open channel end carried no counterparty channel identifier.
    MissingCounterpartyChannel,
    /// A chain event of an unexpected kind was returned for a handshake step.
    UnexpectedEvent,
    /// A square matrix of foreign clients was expected.
    DimensionMismatch,
    /// No stored transaction matched the packet's fields.
    TxNotFound,
    /// A stored transaction result could not be decoded.
    MalformedTxResult,
    /// A stored transaction result carried no execution outcome.
    MissingExecResult,
    /// A packet identifier string was not of the form port/channel/sequence.
    MalformedPacketId,
}

} // verus!
