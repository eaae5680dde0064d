//! The packet-relay dispatcher: maps one observed packet event to the
//! relay action it requires — receive, acknowledge, or time out — builds
//! the proof-carrying message, and routes it through the dispatch
//! pipeline to the chain that must execute it.

use vstd::prelude::*;

use crate::batch::{BatchConfig, BatchWorkerState};
use crate::chain::{
    ChainStatus, ChainStatusQuerier, ChannelCloseReader, ChannelKey, ClientReader,
    MessageSubmitter, ProofQuerier,
};
use crate::dispatch::send_messages_with_update;
use crate::errors::RelayError;
use crate::message::{ChainEvent, ChannelOrdering, OutgoingMessage, Packet, RelayPath};
use crate::runtime::RelayRuntime;

verus! {

/// A source-side event the dispatcher reacts to.
#[derive(Clone, Copy, Debug, PartialEq, Eq, Structural)]
pub enum RelayEvent {
    /// A packet was sent on the source chain.
    SendPacket { packet: Packet },
    /// An acknowledgement for the packet was written on the destination
    /// chain.
    WriteAcknowledgement { packet: Packet, acknowledgement: u64 },
    /// The destination channel end closed while the packet was pending.
    ChannelClosed { packet: Packet },
}

/// Which timeout variant must be built for an expired packet.
#[derive(Clone, Copy, Debug, PartialEq, Eq, Structural)]
pub enum TimeoutKind {
    Unordered,
    Ordered,
    ChannelClosed,
}

/// The action one event requires.
#[derive(Clone, Copy, Debug, PartialEq, Eq, Structural)]
pub enum RelayAction {
    /// Build a receive message and dispatch it to the destination chain.
    RelayReceive { packet: Packet },
    /// Build an acknowledgement message and dispatch it to the source
    /// chain.
    RelayAck { packet: Packet, acknowledgement: u64 },
    /// Build a timeout message of the given kind and dispatch it to the
    /// source chain.
    RelayTimeout { packet: Packet, kind: TimeoutKind },
}

/// The phases of one relay pass.
#[derive(Clone, Copy, Debug, PartialEq, Eq, Structural)]
pub enum DispatcherState {
    Received,
    ProvingSource,
    BuildingMessage,
    Dispatching,
    Done,
    Failed,
}

/// Whether the destination's observed head is past the packet's timeout
/// bounds. A zero bound is unset and never expires.
pub open spec fn spec_packet_timed_out(status: ChainStatus, packet: Packet) -> bool {
    (packet.timeout_height != 0 && status.height >= packet.timeout_height) || (
    packet.timeout_timestamp != 0 && status.timestamp >= packet.timeout_timestamp)
}

/// Exec mirror of [`spec_packet_timed_out`].
pub fn packet_timed_out(status: &ChainStatus, packet: &Packet) -> (r: bool)
    ensures
        r == spec_packet_timed_out(*status, *packet),
{
    (packet.timeout_height != 0 && status.height >= packet.timeout_height) || (
    packet.timeout_timestamp != 0 && status.timestamp >= packet.timeout_timestamp)
}

/// The timeout variant owed for an expired packet: the channel-closed
/// variant when the destination channel end is closed, else the variant
/// matching the channel's ordering.
pub open spec fn expected_timeout_kind(
    destination_closed: bool,
    ordering: ChannelOrdering,
) -> TimeoutKind {
    if destination_closed {
        TimeoutKind::ChannelClosed
    } else if ordering is Ordered {
        TimeoutKind::Ordered
    } else {
        TimeoutKind::Unordered
    }
}

/// Whether `m` is the timeout message of the given kind for `packet`.
pub open spec fn is_timeout_message_for(m: OutgoingMessage, packet: Packet, kind: TimeoutKind)
    -> bool {
    match kind {
        TimeoutKind::Unordered => m matches OutgoingMessage::TimeoutUnorderedPacket {
            packet: p,
            ..
        } && p == packet,
        TimeoutKind::Ordered => m matches OutgoingMessage::TimeoutOrderedPacket {
            packet: p,
            ..
        } && p == packet,
        TimeoutKind::ChannelClosed => m matches OutgoingMessage::TimeoutChannelClosed {
            packet: p,
            ..
        } && p == packet,
    }
}

/// Pure routing decision of the dispatcher: a sent packet already past its
/// timeout bounds on the destination becomes a timeout message back to the
/// source, never a receive message; an unexpired one is received on the
/// destination; an acknowledgement is relayed back to the source; a closed
/// destination channel times the pending packet out on the source.
pub fn decide_relay_action(
    event: &RelayEvent,
    destination_status: &ChainStatus,
    ordering: ChannelOrdering,
    destination_channel_closed: bool,
) -> (action: RelayAction)
    ensures
        (*event matches RelayEvent::SendPacket { packet } && spec_packet_timed_out(
            *destination_status,
            packet,
        )) ==> action == (RelayAction::RelayTimeout {
            packet: event->SendPacket_packet,
            kind: expected_timeout_kind(destination_channel_closed, ordering),
        }),
        (*event matches RelayEvent::SendPacket { packet } && !spec_packet_timed_out(
            *destination_status,
            packet,
        )) ==> action == (RelayAction::RelayReceive { packet: event->SendPacket_packet }),
        event is WriteAcknowledgement ==> action == (RelayAction::RelayAck {
            packet: event->WriteAcknowledgement_packet,
            acknowledgement: event->WriteAcknowledgement_acknowledgement,
        }),
        event is ChannelClosed ==> action == (RelayAction::RelayTimeout {
            packet: event->ChannelClosed_packet,
            kind: TimeoutKind::ChannelClosed,
        }),
{
    match event {
        RelayEvent::SendPacket { packet } => {
            if packet_timed_out(destination_status, packet) {
                let kind = if destination_channel_closed {
                    TimeoutKind::ChannelClosed
                } else if ordering == ChannelOrdering::Ordered {
                    TimeoutKind::Ordered
                } else {
                    TimeoutKind::Unordered
                };
                RelayAction::RelayTimeout { packet: *packet, kind }
            } else {
                RelayAction::RelayReceive { packet: *packet }
            }
        },
        RelayEvent::WriteAcknowledgement { packet, acknowledgement } => RelayAction::RelayAck {
            packet: *packet,
            acknowledgement: *acknowledgement,
        },
        RelayEvent::ChannelClosed { packet } => RelayAction::RelayTimeout {
            packet: *packet,
            kind: TimeoutKind::ChannelClosed,
        },
    }
}

/// The full pipeline preset: the skip-then-wait update-client policy in
/// front of batched sending, with the top-level packet relayer on top.
/// [`FullComponents::new_dispatcher`] wires a dispatcher with exactly
/// this composition.
pub struct FullComponents;

impl FullComponents {
    /// A dispatcher assembled from the full component preset.
    pub fn new_dispatcher<SrcChain, DstChain, Runtime>(
        path: RelayPath,
        channel_ordering: ChannelOrdering,
        source: SrcChain,
        destination: DstChain,
        runtime: Runtime,
        batch_config: BatchConfig,
        max_polls: usize,
        poll_interval_ms: u64,
    ) -> (d: PacketRelayDispatcher<SrcChain, DstChain, Runtime>) where
        SrcChain: ChainStatusQuerier + ClientReader + ProofQuerier + ChannelCloseReader
            + MessageSubmitter,
        DstChain: ChainStatusQuerier + ClientReader + ProofQuerier + ChannelCloseReader
            + MessageSubmitter,
        Runtime: RelayRuntime,

        requires
            batch_config.queue_capacity >= 1,
        ensures
            d.path == path,
            d.channel_ordering == channel_ordering,
            d.source == source,
            d.destination == destination,
            d.state is Received,
            !d.source_worker.closed && d.source_worker.queue@.len() == 0
                && d.source_worker.config == batch_config,
            !d.destination_worker.closed && d.destination_worker.queue@.len() == 0
                && d.destination_worker.config == batch_config,
            d.max_polls == max_polls,
            d.poll_interval_ms == poll_interval_ms,
    {
        PacketRelayDispatcher::new(
            path,
            channel_ordering,
            source,
            destination,
            runtime,
            batch_config,
            max_polls,
            poll_interval_ms,
        )
    }
}

/// Builds the timeout message for an expired packet on an unordered
/// channel, with non-receipt proof queried at `height` on the packet's
/// destination chain.
pub trait TimeoutUnorderedPacketMessageBuilder {
    fn build_timeout_unordered_packet_message(&self, height: u64, packet: &Packet) -> (r: Result<
        OutgoingMessage,
        RelayError,
    >)
        ensures
            r is Ok ==> (r->Ok_0 matches OutgoingMessage::TimeoutUnorderedPacket {
                packet: p,
                proof_height: h,
                ..
            } && p == *packet && h == height),
            r is Err ==> r->Err_0 == RelayError::QueryError,
    ;
}

/// Builds the timeout message for an expired packet on an ordered channel.
pub trait TimeoutOrderedPacketMessageBuilder {
    fn build_timeout_ordered_packet_message(&self, height: u64, packet: &Packet) -> (r: Result<
        OutgoingMessage,
        RelayError,
    >)
        ensures
            r is Ok ==> (r->Ok_0 matches OutgoingMessage::TimeoutOrderedPacket {
                packet: p,
                proof_height: h,
                ..
            } && p == *packet && h == height),
            r is Err ==> r->Err_0 == RelayError::QueryError,
    ;
}

/// Builds the timeout message for a packet whose destination channel end
/// closed while it was pending.
pub trait TimeoutChannelClosedMessageBuilder {
    fn build_timeout_channel_closed_message(&self, height: u64, packet: &Packet) -> (r: Result<
        OutgoingMessage,
        RelayError,
    >)
        ensures
            r is Ok ==> (r->Ok_0 matches OutgoingMessage::TimeoutChannelClosed {
                packet: p,
                proof_height: h,
                ..
            } && p == *packet && h == height),
            r is Err ==> r->Err_0 == RelayError::QueryError,
    ;
}

/// One dispatcher instance: bound to a relay path, the two chains it
/// relays between, a runtime, and one batching worker per chain. The
/// dispatcher owns its workers and drives a flush within every pass, so
/// their queues are empty between passes.
pub struct PacketRelayDispatcher<SrcChain, DstChain, Runtime> {
    pub path: RelayPath,
    pub channel_ordering: ChannelOrdering,
    pub source: SrcChain,
    pub destination: DstChain,
    pub runtime: Runtime,
    pub source_worker: BatchWorkerState,
    pub destination_worker: BatchWorkerState,
    pub state: DispatcherState,
    /// Bound on status polls while waiting for a proof height.
    pub max_polls: usize,
    /// Pause between those polls.
    pub poll_interval_ms: u64,
}

impl<SrcChain, DstChain, Runtime> PacketRelayDispatcher<SrcChain, DstChain, Runtime> where
    SrcChain: ChainStatusQuerier + ClientReader + ProofQuerier + ChannelCloseReader
        + MessageSubmitter,
    DstChain: ChainStatusQuerier + ClientReader + ProofQuerier + ChannelCloseReader
        + MessageSubmitter,
    Runtime: RelayRuntime,
 {
    /// A dispatcher in its initial state, with fresh open workers.
    pub fn new(
        path: RelayPath,
        channel_ordering: ChannelOrdering,
        source: SrcChain,
        destination: DstChain,
        runtime: Runtime,
        batch_config: BatchConfig,
        max_polls: usize,
        poll_interval_ms: u64,
    ) -> (d: PacketRelayDispatcher<SrcChain, DstChain, Runtime>)
        requires
            batch_config.queue_capacity >= 1,
        ensures
            d.path == path,
            d.channel_ordering == channel_ordering,
            d.source == source,
            d.destination == destination,
            d.state is Received,
            !d.source_worker.closed && d.source_worker.queue@.len() == 0
                && d.source_worker.config == batch_config,
            !d.destination_worker.closed && d.destination_worker.queue@.len() == 0
                && d.destination_worker.config == batch_config,
            d.max_polls == max_polls,
            d.poll_interval_ms == poll_interval_ms,
    {
        PacketRelayDispatcher {
            path,
            channel_ordering,
            source,
            destination,
            runtime,
            source_worker: BatchWorkerState::new(batch_config),
            destination_worker: BatchWorkerState::new(batch_config),
            state: DispatcherState::Received,
            max_polls,
            poll_interval_ms,
        }
    }

    /// Submit one message group directly through the destination chain's
    /// batching worker, prepending whatever update the destination's
    /// client is owed for `target_height` first: the pipeline entry for
    /// handshake-type messages outside packet relay. After the worker is
    /// shut down this fails at once with `WorkerClosed`, touching
    /// neither chain.
    pub fn submit_batch(&mut self, request_id: u64, target_height: u64, messages: Vec<
        OutgoingMessage,
    >) -> (r: Result<Vec<Vec<ChainEvent>>, RelayError>)
        requires
            old(self).destination_worker.config.queue_capacity >= 1,
        ensures
            final(self).destination_worker.closed == old(self).destination_worker.closed,
            final(self).source_worker == old(self).source_worker,
            old(self).destination_worker.queue@.len() == 0 ==> final(self).destination_worker.queue@.len() == 0,
            old(self).destination_worker.closed ==> r == Err::<Vec<Vec<ChainEvent>>, RelayError>(
                RelayError::WorkerClosed,
            ) && final(self).destination.model() == old(self).destination.model() && final(self).source.model() == old(self).source.model(),
            !old(self).destination_worker.closed ==> (r is Err ==> r->Err_0
                != RelayError::WorkerClosed),
            r is Ok ==> r->Ok_0@.len() == messages@.len(),
            ({
                // A failed call on a quiet worker leaves no trace of this
                // group on the destination.
                !old(self).destination_worker.closed && old(self).destination_worker.queue@.len() == 0 && r is Err ==> final(self).destination.model().submitted == old(self).destination.model().submitted
            }),
            ({
                // A successful call on a quiet worker submitted exactly this
                // group: alone when the destination already trusts the
                // target, behind one update message otherwise.
                let clients = old(self).destination.model().clients;
                !old(self).destination_worker.closed && old(self).destination_worker.queue@.len() == 0 && r is Ok && clients.contains_key(
                    old(self).path.destination_client,
                ) && clients[old(self).path.destination_client].trusted_height >= target_height
                    ==> final(self).destination.model().submitted == old(self).destination.model().submitted.push(messages@)
            }),
            ({
                let clients = old(self).destination.model().clients;
                !old(self).destination_worker.closed && old(self).destination_worker.queue@.len() == 0 && r is Ok && clients.contains_key(
                    old(self).path.destination_client,
                ) && clients[old(self).path.destination_client].trusted_height < target_height
                    ==> exists|update: OutgoingMessage|
                    {
                        &&& (update matches OutgoingMessage::UpdateClient {
                            client_id: c,
                            target_height: t,
                            ..
                        } && c == old(self).path.destination_client && t == target_height)
                        &&& final(self).destination.model().submitted == old(self).destination.model().submitted.push(seq![update] + messages@)
                    }
            }),
            final(self).path == old(self).path,
            final(self).destination.model().clients == old(self).destination.model().clients,
            final(self).destination.model().closed_channels == old(self).destination.model().closed_channels,
    {
        let (own, _coalesced) = send_messages_with_update(
            &mut self.source,
            &mut self.destination,
            &mut self.runtime,
            &mut self.destination_worker,
            request_id,
            self.path.destination_client,
            target_height,
            messages,
            self.max_polls,
            self.poll_interval_ms,
        );
        own
    }

    /// Drive one pass of the relay state machine for `event`: decide the
    /// required action against the destination's current status, query the
    /// proof, build the message, and dispatch it through the pipeline —
    /// a receive message to the destination chain, an acknowledgement or
    /// timeout message back to the source chain. Ends in `Done` exactly on
    /// success, in `Failed` on any error, which is surfaced, not retried.
    #[verifier::rlimit(60)]
    pub fn relay_event(&mut self, event: &RelayEvent) -> (r: Result<(), RelayError>)
        requires
            old(self).source_worker.config.queue_capacity >= 1,
            old(self).destination_worker.config.queue_capacity >= 1,
        ensures
            final(self).path == old(self).path,
            final(self).channel_ordering == old(self).channel_ordering,
            final(self).max_polls == old(self).max_polls,
            final(self).poll_interval_ms == old(self).poll_interval_ms,
            final(self).source_worker.closed == old(self).source_worker.closed,
            final(self).destination_worker.closed == old(self).destination_worker.closed,
            final(self).source_worker.config == old(self).source_worker.config,
            final(self).destination_worker.config == old(self).destination_worker.config,
            old(self).source_worker.queue@.len() == 0 && old(self).destination_worker.queue@.len() == 0 ==> final(self).source_worker.queue@.len() == 0
                && final(self).destination_worker.queue@.len() == 0,
            r is Ok <==> final(self).state is Done,
            r is Err ==> final(self).state is Failed,
            final(self).source.model().clients == old(self).source.model().clients,
            final(self).destination.model().clients == old(self).destination.model().clients,
            final(self).source.model().closed_channels == old(self).source.model().closed_channels,
            final(self).destination.model().closed_channels == old(self).destination.model().closed_channels,
            ({
                let quiet = old(self).source_worker.queue@.len() == 0 && old(self).destination_worker.queue@.len() == 0;
                r is Ok && quiet ==> (*event matches RelayEvent::SendPacket { packet } ==> {
                    let dst = final(self).destination.model();
                    let src = final(self).source.model();
                    if spec_packet_timed_out(dst.status, packet) {
                        &&& src.submitted.len() == old(self).source.model().submitted.len() + 1
                        &&& src.submitted.last().len() >= 1
                        &&& is_timeout_message_for(
                            src.submitted.last().last(),
                            packet,
                            expected_timeout_kind(
                                dst.closed_channels.contains(
                                    ChannelKey {
                                        port_id: packet.destination_port,
                                        channel_id: packet.destination_channel,
                                    },
                                ),
                                old(self).channel_ordering,
                            ),
                        )
                        &&& dst.submitted == old(self).destination.model().submitted
                    } else {
                        &&& dst.submitted.len() == old(self).destination.model().submitted.len()
                            + 1
                        &&& dst.submitted.last().len() >= 1
                        &&& (dst.submitted.last().last() matches OutgoingMessage::ReceivePacket {
                            packet: p,
                            ..
                        } && p == packet)
                        &&& src.submitted == old(self).source.model().submitted
                    }
                })
            }),
            ({
                let quiet = old(self).source_worker.queue@.len() == 0 && old(self).destination_worker.queue@.len() == 0;
                r is Ok && quiet ==> (*event matches RelayEvent::WriteAcknowledgement {
                    packet,
                    acknowledgement,
                } ==> {
                    let src = final(self).source.model();
                    &&& src.submitted.len() == old(self).source.model().submitted.len() + 1
                    &&& src.submitted.last().len() >= 1
                    &&& (src.submitted.last().last() matches OutgoingMessage::AckPacket {
                        packet: p,
                        acknowledgement: a,
                        ..
                    } && p == packet && a == acknowledgement)
                    &&& final(self).destination.model().submitted == old(self).destination.model().submitted
                })
            }),
            ({
                let quiet = old(self).source_worker.queue@.len() == 0 && old(self).destination_worker.queue@.len() == 0;
                r is Ok && quiet ==> (*event matches RelayEvent::ChannelClosed { packet } ==> {
                    let src = final(self).source.model();
                    &&& src.submitted.len() == old(self).source.model().submitted.len() + 1
                    &&& src.submitted.last().len() >= 1
                    &&& is_timeout_message_for(
                        src.submitted.last().last(),
                        packet,
                        TimeoutKind::ChannelClosed,
                    )
                    &&& final(self).destination.model().submitted == old(self).destination.model().submitted
                })
            }),
    {
        self.state = DispatcherState::Received;
        let dst_status = match self.destination.query_chain_status() {
            Ok(status) => status,
            Err(error) => {
                self.state = DispatcherState::Failed;
                return Err(error);
            },
        };
        let packet = match event {
            RelayEvent::SendPacket { packet } => *packet,
            RelayEvent::WriteAcknowledgement { packet, .. } => *packet,
            RelayEvent::ChannelClosed { packet } => *packet,
        };
        let destination_closed = match self.destination.query_channel_closed(
            packet.destination_port,
            packet.destination_channel,
        ) {
            Ok(closed) => closed,
            Err(error) => {
                self.state = DispatcherState::Failed;
                return Err(error);
            },
        };
        let action = decide_relay_action(event, &dst_status, self.channel_ordering,
            destination_closed);
        match action {
            RelayAction::RelayReceive { packet } => {
                self.state = DispatcherState::ProvingSource;
                let src_status = match self.source.query_chain_status() {
                    Ok(status) => status,
                    Err(error) => {
                        self.state = DispatcherState::Failed;
                        return Err(error);
                    },
                };
                let proof = match self.source.query_packet_proof(&packet, src_status.height) {
                    Ok(proof) => proof,
                    Err(error) => {
                        self.state = DispatcherState::Failed;
                        return Err(error);
                    },
                };
                self.state = DispatcherState::BuildingMessage;
                let message = OutgoingMessage::ReceivePacket {
                    packet,
                    proof_height: src_status.height,
                    proof,
                };
                self.state = DispatcherState::Dispatching;
                let mut payload: Vec<OutgoingMessage> = Vec::new();
                payload.push(message);
                let (own, _coalesced) = send_messages_with_update(
                    &mut self.source,
                    &mut self.destination,
                    &mut self.runtime,
                    &mut self.destination_worker,
                    packet.sequence,
                    self.path.destination_client,
                    src_status.height,
                    payload,
                    self.max_polls,
                    self.poll_interval_ms,
                );
                match own {
                    Ok(_) => {
                        self.state = DispatcherState::Done;
                        Ok(())
                    },
                    Err(error) => {
                        self.state = DispatcherState::Failed;
                        Err(error)
                    },
                }
            },
            RelayAction::RelayAck { packet, acknowledgement } => {
                self.state = DispatcherState::ProvingSource;
                let proof = match self.destination.query_packet_proof(&packet, dst_status.height)
                    {
                    Ok(proof) => proof,
                    Err(error) => {
                        self.state = DispatcherState::Failed;
                        return Err(error);
                    },
                };
                self.state = DispatcherState::BuildingMessage;
                let message = OutgoingMessage::AckPacket {
                    packet,
                    acknowledgement,
                    proof_height: dst_status.height,
                    proof,
                };
                self.state = DispatcherState::Dispatching;
                let mut payload: Vec<OutgoingMessage> = Vec::new();
                payload.push(message);
                let (own, _coalesced) = send_messages_with_update(
                    &mut self.destination,
                    &mut self.source,
                    &mut self.runtime,
                    &mut self.source_worker,
                    packet.sequence,
                    self.path.source_client,
                    dst_status.height,
                    payload,
                    self.max_polls,
                    self.poll_interval_ms,
                );
                match own {
                    Ok(_) => {
                        self.state = DispatcherState::Done;
                        Ok(())
                    },
                    Err(error) => {
                        self.state = DispatcherState::Failed;
                        Err(error)
                    },
                }
            },
            RelayAction::RelayTimeout { packet, kind } => {
                self.state = DispatcherState::ProvingSource;
                let built = match kind {
                    TimeoutKind::Unordered => self.build_timeout_unordered_packet_message(
                        dst_status.height,
                        &packet,
                    ),
                    TimeoutKind::Ordered => self.build_timeout_ordered_packet_message(
                        dst_status.height,
                        &packet,
                    ),
                    TimeoutKind::ChannelClosed => self.build_timeout_channel_closed_message(
                        dst_status.height,
                        &packet,
                    ),
                };
                let message = match built {
                    Ok(message) => message,
                    Err(error) => {
                        self.state = DispatcherState::Failed;
                        return Err(error);
                    },
                };
                self.state = DispatcherState::Dispatching;
                let mut payload: Vec<OutgoingMessage> = Vec::new();
                payload.push(message);
                let (own, _coalesced) = send_messages_with_update(
                    &mut self.destination,
                    &mut self.source,
                    &mut self.runtime,
                    &mut self.source_worker,
                    packet.sequence,
                    self.path.source_client,
                    dst_status.height,
                    payload,
                    self.max_polls,
                    self.poll_interval_ms,
                );
                match own {
                    Ok(_) => {
                        self.state = DispatcherState::Done;
                        Ok(())
                    },
                    Err(error) => {
                        self.state = DispatcherState::Failed;
                        Err(error)
                    },
                }
            },
        }
    }
}

impl<SrcChain, DstChain, Runtime> TimeoutUnorderedPacketMessageBuilder for PacketRelayDispatcher<
    SrcChain,
    DstChain,
    Runtime,
> where DstChain: ProofQuerier {
    fn build_timeout_unordered_packet_message(&self, height: u64, packet: &Packet) -> (r: Result<
        OutgoingMessage,
        RelayError,
    >) {
        let proof = self.destination.query_packet_proof(packet, height)?;
        Ok(OutgoingMessage::TimeoutUnorderedPacket { packet: *packet, proof_height: height, proof })
    }
}

impl<SrcChain, DstChain, Runtime> TimeoutOrderedPacketMessageBuilder for PacketRelayDispatcher<
    SrcChain,
    DstChain,
    Runtime,
> where DstChain: ProofQuerier {
    fn build_timeout_ordered_packet_message(&self, height: u64, packet: &Packet) -> (r: Result<
        OutgoingMessage,
        RelayError,
    >) {
        let proof = self.destination.query_packet_proof(packet, height)?;
        Ok(OutgoingMessage::TimeoutOrderedPacket { packet: *packet, proof_height: height, proof })
    }
}

impl<SrcChain, DstChain, Runtime> TimeoutChannelClosedMessageBuilder for PacketRelayDispatcher<
    SrcChain,
    DstChain,
    Runtime,
> where DstChain: ProofQuerier {
    fn build_timeout_channel_closed_message(&self, height: u64, packet: &Packet) -> (r: Result<
        OutgoingMessage,
        RelayError,
    >) {
        let proof = self.destination.query_packet_proof(packet, height)?;
        Ok(OutgoingMessage::TimeoutChannelClosed { packet: *packet, proof_height: height, proof })
    }
}

} // verus!
