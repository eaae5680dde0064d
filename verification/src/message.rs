//! Plain data carried through the relay pipeline: packets, outgoing
//! messages, chain events, and the relay path a dispatcher is bound to.
//!
//! Identifiers (clients, ports, channels, connections) and opaque payloads
//! (proof commitments, packet data) are modelled as numeric tokens: the
//! engine never inspects them, it only carries and compares them.

use vstd::prelude::*;

verus! {

/// Whether a channel delivers packets in sequence order or not.
#[derive(Clone, Copy, Debug, PartialEq, Eq, Structural)]
pub enum ChannelOrdering {
    Ordered,
    Unordered,
}

/// A packet observed on the source chain. Immutable once observed.
/// A timeout field equal to zero means that bound is not set.
#[derive(Clone, Copy, Debug, PartialEq, Eq, Structural)]
pub struct Packet {
    pub sequence: u64,
    pub source_port: u64,
    pub source_channel: u64,
    pub destination_port: u64,
    pub destination_channel: u64,
    pub payload: u64,
    pub timeout_height: u64,
    pub timeout_timestamp: u64,
}

/// The two chains and channel ends one dispatcher instance relays between.
#[derive(Clone, Copy, Debug, PartialEq, Eq, Structural)]
pub struct RelayPath {
    pub source_chain: u64,
    pub destination_chain: u64,
    pub source_port: u64,
    pub source_channel: u64,
    pub destination_port: u64,
    pub destination_channel: u64,
    /// The client on the destination chain that tracks the source chain.
    pub destination_client: u64,
    /// The client on the source chain that tracks the destination chain.
    pub source_client: u64,
}

/// One protocol action to be included in a transaction. Order within a
/// submitted group is significant: an update-client message must precede
/// the proof-carrying message it backs.
#[derive(Clone, Copy, Debug, PartialEq, Eq, Structural)]
pub enum OutgoingMessage {
    UpdateClient { client_id: u64, target_height: u64, header: u64 },
    ReceivePacket { packet: Packet, proof_height: u64, proof: u64 },
    AckPacket { packet: Packet, acknowledgement: u64, proof_height: u64, proof: u64 },
    TimeoutUnorderedPacket { packet: Packet, proof_height: u64, proof: u64 },
    TimeoutOrderedPacket { packet: Packet, proof_height: u64, proof: u64 },
    TimeoutChannelClosed { packet: Packet, proof_height: u64, proof: u64 },
}

impl DeepView for OutgoingMessage {
    type V = OutgoingMessage;

    open spec fn deep_view(&self) -> OutgoingMessage {
        *self
    }
}

/// One event emitted by the execution of one message in a transaction.
#[derive(Clone, Copy, Debug, PartialEq, Eq, Structural)]
pub enum ChainEvent {
    ClientUpdated { client_id: u64, height: u64 },
    PacketReceived { sequence: u64 },
    PacketAcknowledged { sequence: u64 },
    PacketTimedOut { sequence: u64 },
    ChannelOpenInit { channel_id: u64, port_id: u64, connection_id: u64, counterparty_port: u64 },
    ChannelOpenTry { channel_id: u64, port_id: u64, connection_id: u64, counterparty_port: u64 },
    ChannelOpenAck { channel_id: u64, port_id: u64, connection_id: u64, counterparty_port: u64 },
    Generic { code: u64 },
}

impl DeepView for ChainEvent {
    type V = ChainEvent;

    open spec fn deep_view(&self) -> ChainEvent {
        *self
    }
}

} // verus!
