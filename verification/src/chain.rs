//! The per-chain capability surface the engine consumes: status queries,
//! client queries, proof queries, header building, and transaction
//! submission. Ledger-specific adapters implement these traits; the
//! engine's contracts are stated against the abstract chain model below.

use vstd::prelude::*;

use crate::errors::RelayError;
use crate::message::{ChainEvent, OutgoingMessage, Packet};

verus! {

/// A chain's observed head: a monotonic height and the timestamp of that
/// height, as reported by a status query.
#[derive(Clone, Copy, Debug, PartialEq, Eq, Structural)]
pub struct ChainStatus {
    pub height: u64,
    pub timestamp: u64,
}

impl ChainStatus {
    /// Not later than `other` in both coordinates.
    pub open spec fn le(self, other: ChainStatus) -> bool {
        self.height <= other.height && self.timestamp <= other.timestamp
    }
}

/// What a chain knows of one client it hosts.
#[derive(Clone, Copy, Debug, PartialEq, Eq, Structural)]
pub struct TrackedClient {
    /// The most recent counterparty height this client has verified.
    pub trusted_height: u64,
    /// Frozen after misbehaviour; protocol-fatal.
    pub frozen: bool,
    /// Past its trusting period; protocol-fatal.
    pub expired: bool,
}

/// One channel end on a chain, named by its port and channel identifiers.
#[derive(Clone, Copy, Debug, PartialEq, Eq, Structural)]
#[verifier::ext_equal]
pub struct ChannelKey {
    pub port_id: u64,
    pub channel_id: u64,
}

/// The abstract state of one chain, as far as the engine's contracts
/// speak of it.
pub struct ChainModel {
    /// The chain's current head.
    pub status: ChainStatus,
    /// The clients this chain hosts, by client identifier.
    pub clients: Map<u64, TrackedClient>,
    /// Every transaction submitted to this chain so far, oldest first;
    /// each entry is the ordered message sequence of one transaction.
    pub submitted: Seq<Seq<OutgoingMessage>>,
    /// The channel ends on this chain that are closed.
    pub closed_channels: Set<ChannelKey>,
}

/// The parts of a chain model that a status query may not change.
pub open spec fn same_except_status(a: ChainModel, b: ChainModel) -> bool {
    a.clients == b.clients && a.submitted == b.submitted && a.closed_channels
        == b.closed_channels
}

/// The parts of a chain model that a submission may not change.
pub open spec fn same_except_submitted(a: ChainModel, b: ChainModel) -> bool {
    a.status == b.status && a.clients == b.clients && a.closed_channels == b.closed_channels
}

/// Ties an adapter to its abstract model.
pub trait HasChainModel: Sized {
    spec fn model(&self) -> ChainModel;
}

/// Read the chain's current height and timestamp. Queries may observe the
/// chain advancing, but never going back.
pub trait ChainStatusQuerier: HasChainModel {
    fn query_chain_status(&mut self) -> (r: Result<ChainStatus, RelayError>)
        ensures
            same_except_status(old(self).model(), final(self).model()),
            old(self).model().status.le(final(self).model().status),
            r is Ok ==> r->Ok_0 == final(self).model().status,
            r is Err ==> r->Err_0 == RelayError::QueryError,
    ;
}

/// Read what this chain's clients currently trust.
pub trait ClientReader: HasChainModel {
    fn query_tracked_client(&self, client_id: u64) -> (r: Result<TrackedClient, RelayError>)
        ensures
            r is Ok <==> self.model().clients.contains_key(client_id),
            r is Ok ==> r->Ok_0 == self.model().clients[client_id],
            r is Err ==> r->Err_0 == RelayError::QueryError,
    ;
}

/// Query proof data and build proof-carrying material on this chain.
/// Proof commitments are opaque to the engine; it only carries them.
pub trait ProofQuerier: HasChainModel {
    /// Cryptographic evidence about `packet` at `height` on this chain.
    fn query_packet_proof(&self, packet: &Packet, height: u64) -> (r: Result<
        u64,
        RelayError,
    >)
        ensures
            r is Err ==> r->Err_0 == RelayError::QueryError,
    ;

    /// A header proving this chain's consensus progress up to
    /// `target_height`, wrapped as an update message for `client_id` on
    /// the counterparty.
    fn build_update_client_message(&self, client_id: u64, target_height: u64) -> (r: Result<
        OutgoingMessage,
        RelayError,
    >)
        ensures
            r is Ok ==> (r->Ok_0 matches OutgoingMessage::UpdateClient {
                client_id: c,
                target_height: t,
                ..
            } && c == client_id && t == target_height),
            r is Err ==> r->Err_0 == RelayError::QueryError,
    ;
}

/// Read whether a channel end on this chain is closed.
pub trait ChannelCloseReader: HasChainModel {
    fn query_channel_closed(&self, port_id: u64, channel_id: u64) -> (r: Result<
        bool,
        RelayError,
    >)
        ensures
            r is Ok ==> r->Ok_0 == self.model().closed_channels.contains(
                ChannelKey { port_id, channel_id },
            ),
            r is Err ==> r->Err_0 == RelayError::QueryError,
    ;
}

/// Submit one atomic transaction: an ordered message sequence, answered by
/// one event group per message, in message order.
pub trait MessageSubmitter: HasChainModel {
    fn submit_messages(&mut self, messages: &Vec<OutgoingMessage>) -> (r: Result<
        Vec<Vec<ChainEvent>>,
        RelayError,
    >)
        ensures
            r is Ok ==> final(self).model().submitted == old(self).model().submitted.push(
                messages@,
            ),
            r is Ok ==> same_except_submitted(old(self).model(), final(self).model()),
            r is Ok ==> r->Ok_0@.len() == messages@.len(),
            r is Err ==> final(self).model() == old(self).model(),
            r is Err ==> r->Err_0 == RelayError::SubmissionError,
    ;
}

/// The full capability surface one chain adapter offers the engine.
pub trait ChainCapability:
    ChainStatusQuerier + ClientReader + ProofQuerier + ChannelCloseReader + MessageSubmitter {
}

impl<
    C: ChainStatusQuerier + ClientReader + ProofQuerier + ChannelCloseReader + MessageSubmitter,
> ChainCapability for C {
}

} // verus!
