//! Simulated chain and runtime for exercising the engine without ledgers:
//! a scripted chain whose head advances a fixed step per status query,
//! with a programmable client table, closed-channel table, and failure
//! switches, recording every submitted transaction.

use vstd::prelude::*;

use crate::chain::{
    ChainModel, ChainStatus, ChainStatusQuerier, ChannelCloseReader, ChannelKey, ClientReader,
    HasChainModel, MessageSubmitter, ProofQuerier, TrackedClient,
};
use crate::channel::{
    ChannelEnd, ChannelEndView, ChannelHandshaker, ChannelQuerier, ChannelSide,
    ChannelCounterparty, HandshakeKind, HandshakeStep,
};
use crate::connection::{ConnectedConnection, ConnectionBootstrapper, ForeignClient};
use crate::errors::RelayError;
use crate::node::{FullNode, NodeBootstrapper};
use crate::message::{ChainEvent, ChannelOrdering, OutgoingMessage, Packet};
use crate::runtime::RelayRuntime;

verus! {

/// The client table a mock chain hosts, read as a map; a later entry for
/// the same identifier wins.
pub open spec fn client_map_of(entries: Seq<(u64, TrackedClient)>) -> Map<u64, TrackedClient>
    decreases entries.len(),
{
    if entries.len() == 0 {
        Map::empty()
    } else {
        client_map_of(entries.drop_last()).insert(entries.last().0, entries.last().1)
    }
}

/// The closed-channel table, read as a set.
pub open spec fn channel_set_of(entries: Seq<ChannelKey>) -> Set<ChannelKey>
    decreases entries.len(),
{
    if entries.len() == 0 {
        Set::empty()
    } else {
        channel_set_of(entries.drop_last()).insert(entries.last())
    }
}

proof fn lemma_channel_set_contains(entries: Seq<ChannelKey>, key: ChannelKey)
    ensures
        channel_set_of(entries).contains(key) <==> exists|j: int|
            0 <= j < entries.len() && entries[j] == key,
    decreases entries.len(),
{
    if entries.len() > 0 {
        lemma_channel_set_contains(entries.drop_last(), key);
        if entries.last() == key {
            assert(entries[entries.len() - 1] == key);
        } else if channel_set_of(entries.drop_last()).contains(key) {
            let j = choose|j: int|
                0 <= j < entries.drop_last().len() && entries.drop_last()[j] == key;
            assert(entries[j] == key);
        } else if exists|j: int| 0 <= j < entries.len() && entries[j] == key {
            let j = choose|j: int| 0 <= j < entries.len() && entries[j] == key;
            assert(j < entries.len() - 1 ==> entries.drop_last()[j] == key);
        }
    }
}

/// Dropping a suffix with no entry for `key` leaves the map's view of
/// `key` unchanged.
proof fn lemma_client_map_untouched_suffix(entries: Seq<(u64, TrackedClient)>, key: u64, i: int)
    requires
        0 <= i <= entries.len(),
        forall|j: int| i <= j < entries.len() ==> (#[trigger] entries[j]).0 != key,
    ensures
        client_map_of(entries).contains_key(key) == client_map_of(entries.take(i)).contains_key(
            key,
        ),
        client_map_of(entries).contains_key(key) ==> client_map_of(entries)[key] == client_map_of(
            entries.take(i),
        )[key],
    decreases entries.len() - i,
{
    if i < entries.len() {
        lemma_client_map_untouched_suffix(entries, key, i + 1);
        assert(entries.take(i + 1).drop_last() =~= entries.take(i));
        assert(entries.take(i + 1).last() == entries[i]);
    } else {
        assert(entries.take(i) =~= entries);
    }
}

/// The event a mock chain emits for one executed message.
pub open spec fn spec_mock_event_for(m: OutgoingMessage) -> ChainEvent {
    match m {
        OutgoingMessage::UpdateClient { client_id, target_height, .. } => {
            ChainEvent::ClientUpdated { client_id, height: target_height }
        },
        OutgoingMessage::ReceivePacket { packet, .. } => {
            ChainEvent::PacketReceived { sequence: packet.sequence }
        },
        OutgoingMessage::AckPacket { packet, .. } => {
            ChainEvent::PacketAcknowledged { sequence: packet.sequence }
        },
        OutgoingMessage::TimeoutUnorderedPacket { packet, .. } => {
            ChainEvent::PacketTimedOut { sequence: packet.sequence }
        },
        OutgoingMessage::TimeoutOrderedPacket { packet, .. } => {
            ChainEvent::PacketTimedOut { sequence: packet.sequence }
        },
        OutgoingMessage::TimeoutChannelClosed { packet, .. } => {
            ChainEvent::PacketTimedOut { sequence: packet.sequence }
        },
    }
}

/// Exec mirror of [`spec_mock_event_for`].
pub fn mock_event_for(m: &OutgoingMessage) -> (e: ChainEvent)
    ensures
        e == spec_mock_event_for(*m),
{
    match m {
        OutgoingMessage::UpdateClient { client_id, target_height, .. } => {
            ChainEvent::ClientUpdated { client_id: *client_id, height: *target_height }
        },
        OutgoingMessage::ReceivePacket { packet, .. } => {
            ChainEvent::PacketReceived { sequence: packet.sequence }
        },
        OutgoingMessage::AckPacket { packet, .. } => {
            ChainEvent::PacketAcknowledged { sequence: packet.sequence }
        },
        OutgoingMessage::TimeoutUnorderedPacket { packet, .. } => {
            ChainEvent::PacketTimedOut { sequence: packet.sequence }
        },
        OutgoingMessage::TimeoutOrderedPacket { packet, .. } => {
            ChainEvent::PacketTimedOut { sequence: packet.sequence }
        },
        OutgoingMessage::TimeoutChannelClosed { packet, .. } => {
            ChainEvent::PacketTimedOut { sequence: packet.sequence }
        },
    }
}

/// A scripted chain. Its head advances by the configured steps on every
/// successful status query; queries and submissions can be switched to
/// fail; every submitted transaction is recorded in order.
pub struct MockChain {
    pub chain_id: u64,
    pub height: u64,
    pub timestamp: u64,
    /// Head advance per successful status query.
    pub height_step: u64,
    pub timestamp_step: u64,
    pub clients: Vec<(u64, TrackedClient)>,
    pub closed_channels: Vec<ChannelKey>,
    pub channels: Vec<(ChannelKey, ChannelEnd)>,
    /// The identifier the next handshake step is assigned.
    pub next_channel_id: u64,
    /// Every handshake step performed on this chain, in order.
    pub handshake_steps: Vec<HandshakeStep>,
    pub submitted_log: Vec<Vec<OutgoingMessage>>,
    pub fail_submissions: bool,
    pub fail_queries: bool,
}

impl MockChain {
    /// A quiet chain at the given head, hosting nothing.
    pub fn new(chain_id: u64, height: u64, timestamp: u64) -> (c: MockChain)
        ensures
            c.model().status == (ChainStatus { height, timestamp }),
            c.model().clients == Map::<u64, TrackedClient>::empty(),
            c.model().submitted == Seq::<Seq<OutgoingMessage>>::empty(),
            c.model().closed_channels == Set::<ChannelKey>::empty(),
            c.height_step == 0 && c.timestamp_step == 0,
            !c.fail_submissions && !c.fail_queries,
            c.chain_id == chain_id,
            c.channel_ends() == Map::<ChannelKey, ChannelEndView>::empty(),
            c.handshake_log() == Seq::<HandshakeStep>::empty(),
    {
        let c = MockChain {
            chain_id,
            height,
            timestamp,
            height_step: 0,
            timestamp_step: 0,
            clients: Vec::new(),
            closed_channels: Vec::new(),
            channels: Vec::new(),
            next_channel_id: 0,
            handshake_steps: Vec::new(),
            submitted_log: Vec::new(),
            fail_submissions: false,
            fail_queries: false,
        };
        proof {
            assert(c.submitted_log.deep_view() =~= Seq::<Seq<OutgoingMessage>>::empty());
            assert(c.handshake_steps@ =~= Seq::<HandshakeStep>::empty());
        }
        c
    }

    /// Host (or overwrite) a client.
    pub fn set_client(&mut self, client_id: u64, client: TrackedClient)
        ensures
            final(self).model().clients == old(self).model().clients.insert(client_id, client),
            final(self).model().status == old(self).model().status,
            final(self).model().submitted == old(self).model().submitted,
            final(self).model().closed_channels == old(self).model().closed_channels,
            final(self).fail_submissions == old(self).fail_submissions,
            final(self).fail_queries == old(self).fail_queries,
            final(self).height_step == old(self).height_step,
            final(self).timestamp_step == old(self).timestamp_step,
    {
        self.clients.push((client_id, client));
        proof {
            assert(self.clients@.drop_last() =~= old(self).clients@);
        }
    }

    /// Mark a channel end closed.
    pub fn close_channel(&mut self, key: ChannelKey)
        ensures
            final(self).model().closed_channels == old(self).model().closed_channels.insert(key),
            final(self).model().status == old(self).model().status,
            final(self).model().submitted == old(self).model().submitted,
            final(self).model().clients == old(self).model().clients,
    {
        self.closed_channels.push(key);
        proof {
            assert(self.closed_channels@.drop_last() =~= old(self).closed_channels@);
        }
    }
}

impl HasChainModel for MockChain {
    open spec fn model(&self) -> ChainModel {
        ChainModel {
            status: ChainStatus { height: self.height, timestamp: self.timestamp },
            clients: client_map_of(self.clients@),
            submitted: self.submitted_log.deep_view(),
            closed_channels: channel_set_of(self.closed_channels@),
        }
    }
}

impl ChainStatusQuerier for MockChain {
    fn query_chain_status(&mut self) -> (r: Result<ChainStatus, RelayError>) {
        if self.fail_queries {
            return Err(RelayError::QueryError);
        }
        self.height = if self.height <= u64::MAX - self.height_step {
            self.height + self.height_step
        } else {
            u64::MAX
        };
        self.timestamp = if self.timestamp <= u64::MAX - self.timestamp_step {
            self.timestamp + self.timestamp_step
        } else {
            u64::MAX
        };
        Ok(ChainStatus { height: self.height, timestamp: self.timestamp })
    }
}

impl ClientReader for MockChain {
    fn query_tracked_client(&self, client_id: u64) -> (r: Result<TrackedClient, RelayError>) {
        let n = self.clients.len();
        let mut i: usize = n;
        while i > 0
            invariant
                i <= n,
                n == self.clients@.len(),
                forall|j: int| i <= j < n ==> (#[trigger] self.clients@[j]).0 != client_id,
            decreases i,
        {
            i = i - 1;
            if self.clients[i].0 == client_id {
                proof {
                    lemma_client_map_untouched_suffix(self.clients@, client_id, i + 1);
                    assert(self.clients@.take(i + 1).last() == self.clients@[i as int]);
                }
                return Ok(self.clients[i].1);
            }
        }
        proof {
            lemma_client_map_untouched_suffix(self.clients@, client_id, 0);
            assert(self.clients@.take(0) =~= Seq::<(u64, TrackedClient)>::empty());
        }
        Err(RelayError::QueryError)
    }
}

impl ProofQuerier for MockChain {
    fn query_packet_proof(&self, packet: &Packet, height: u64) -> (r: Result<u64, RelayError>) {
        if self.fail_queries {
            Err(RelayError::QueryError)
        } else {
            Ok(height)
        }
    }

    fn build_update_client_message(&self, client_id: u64, target_height: u64) -> (r: Result<
        OutgoingMessage,
        RelayError,
    >) {
        if self.fail_queries {
            Err(RelayError::QueryError)
        } else {
            Ok(OutgoingMessage::UpdateClient { client_id, target_height, header: target_height })
        }
    }
}

impl ChannelCloseReader for MockChain {
    fn query_channel_closed(&self, port_id: u64, channel_id: u64) -> (r: Result<
        bool,
        RelayError,
    >) {
        if self.fail_queries {
            return Err(RelayError::QueryError);
        }
        let key = ChannelKey { port_id, channel_id };
        let n = self.closed_channels.len();
        let mut i: usize = 0;
        while i < n
            invariant
                i <= n,
                n == self.closed_channels@.len(),
                key == (ChannelKey { port_id, channel_id }),
                forall|j: int| 0 <= j < i ==> self.closed_channels@[j] != key,
            decreases n - i,
        {
            if self.closed_channels[i].port_id == port_id && self.closed_channels[i].channel_id
                == channel_id {
                proof {
                    assert(self.closed_channels@[i as int] =~= key);
                    lemma_channel_set_contains(self.closed_channels@, key);
                }
                return Ok(true);
            }
            proof {
                assert(self.closed_channels@[i as int] != key);
            }
            i = i + 1;
        }
        proof {
            lemma_channel_set_contains(self.closed_channels@, key);
        }
        Ok(false)
    }
}

proof fn lemma_log_push(a: Vec<Vec<OutgoingMessage>>, b: Vec<Vec<OutgoingMessage>>, x: Vec<
    OutgoingMessage,
>)
    requires
        b@ == a@.push(x),
    ensures
        b.deep_view() =~= a.deep_view().push(x@),
{
    assert forall|i: int| 0 <= i < b.deep_view().len() implies b.deep_view()[i]
        == a.deep_view().push(x@)[i] by {
        if i < a@.len() {
            assert(b@[i] == a@[i]);
        } else {
            assert(b@[i] == x);
            assert(x.deep_view() =~= x@);
        }
    }
}

impl MessageSubmitter for MockChain {
    fn submit_messages(&mut self, messages: &Vec<OutgoingMessage>) -> (r: Result<
        Vec<Vec<ChainEvent>>,
        RelayError,
    >) {
        if self.fail_submissions {
            return Err(RelayError::SubmissionError);
        }
        let mut events: Vec<Vec<ChainEvent>> = Vec::new();
        let mut i: usize = 0;
        while i < messages.len()
            invariant
                i <= messages@.len(),
                events@.len() == i,
            decreases messages@.len() - i,
        {
            let mut group: Vec<ChainEvent> = Vec::new();
            group.push(mock_event_for(&messages[i]));
            events.push(group);
            i = i + 1;
        }
        let mut recorded: Vec<OutgoingMessage> = Vec::new();
        let mut j: usize = 0;
        while j < messages.len()
            invariant
                j <= messages@.len(),
                recorded@ == messages@.take(j as int),
            decreases messages@.len() - j,
        {
            recorded.push(messages[j]);
            j = j + 1;
            assert(messages@.take(j as int) =~= messages@.take(j - 1).push(messages@[j - 1]));
        }
        proof {
            assert(messages@.take(messages@.len() as int) =~= messages@);
        }
        let ghost log_before = self.submitted_log;
        self.submitted_log.push(recorded);
        proof {
            lemma_log_push(log_before, self.submitted_log, recorded);
        }
        Ok(events)
    }
}

/// The channel-end table a mock chain stores, read as a map of views; a
/// later entry for the same key wins.
pub open spec fn channel_map_of(entries: Seq<(ChannelKey, ChannelEnd)>) -> Map<
    ChannelKey,
    ChannelEndView,
>
    decreases entries.len(),
{
    if entries.len() == 0 {
        Map::empty()
    } else {
        channel_map_of(entries.drop_last()).insert(entries.last().0, entries.last().1@)
    }
}

/// Dropping a suffix with no entry for `key` leaves the map's view of
/// `key` unchanged.
proof fn lemma_channel_map_untouched_suffix(
    entries: Seq<(ChannelKey, ChannelEnd)>,
    key: ChannelKey,
    i: int,
)
    requires
        0 <= i <= entries.len(),
        forall|j: int| i <= j < entries.len() ==> (#[trigger] entries[j]).0 != key,
    ensures
        channel_map_of(entries).contains_key(key) == channel_map_of(
            entries.take(i),
        ).contains_key(key),
        channel_map_of(entries).contains_key(key) ==> channel_map_of(entries)[key]
            == channel_map_of(entries.take(i))[key],
    decreases entries.len() - i,
{
    if i < entries.len() {
        lemma_channel_map_untouched_suffix(entries, key, i + 1);
        assert(entries.take(i + 1).drop_last() =~= entries.take(i));
        assert(entries.take(i + 1).last() == entries[i]);
    } else {
        assert(entries.take(i) =~= entries);
    }
}

impl MockChain {
    /// Store (or overwrite) a channel end.
    pub fn set_channel(&mut self, key: ChannelKey, end: ChannelEnd)
        ensures
            final(self).channel_ends() == old(self).channel_ends().insert(key, end@),
            final(self).model() == old(self).model(),
            final(self).fail_queries == old(self).fail_queries,
    {
        self.channels.push((key, end));
        proof {
            assert(self.channels@.drop_last() =~= old(self).channels@);
        }
    }
}

impl ChannelQuerier for MockChain {
    open spec fn channel_ends(&self) -> Map<ChannelKey, ChannelEndView> {
        channel_map_of(self.channels@)
    }

    fn query_channel(&mut self, port_id: u64, channel_id: u64) -> (r: Result<
        ChannelEnd,
        RelayError,
    >) {
        let key = ChannelKey { port_id, channel_id };
        let n = self.channels.len();
        let mut i: usize = n;
        while i > 0
            invariant
                i <= n,
                n == self.channels@.len(),
                key == (ChannelKey { port_id, channel_id }),
                forall|j: int| i <= j < n ==> (#[trigger] self.channels@[j]).0 != key,
            decreases i,
        {
            i = i - 1;
            if self.channels[i].0.port_id == port_id && self.channels[i].0.channel_id
                == channel_id {
                proof {
                    assert(self.channels@[i as int].0 =~= key);
                    lemma_channel_map_untouched_suffix(self.channels@, key, i + 1);
                    assert(self.channels@.take(i + 1).last() == self.channels@[i as int]);
                }
                let stored = &self.channels[i].1;
                let copied = ChannelEnd {
                    state: stored.state,
                    ordering: stored.ordering,
                    counterparty: stored.counterparty,
                    connection_hops: copy_hops(&stored.connection_hops),
                    version: stored.version,
                    flush_status: stored.flush_status,
                };
                return Ok(copied);
            }
            proof {
                assert(self.channels@[i as int].0 != key);
            }
        }
        proof {
            lemma_channel_map_untouched_suffix(self.channels@, key, 0);
            assert(self.channels@.take(0) =~= Seq::<(ChannelKey, ChannelEnd)>::empty());
        }
        Err(RelayError::QueryError)
    }
}

/// Copy of a hop vector, by value.
fn copy_hops(v: &Vec<u64>) -> (r: Vec<u64>)
    ensures
        r@ == v@,
{
    let mut r: Vec<u64> = Vec::new();
    let mut i: usize = 0;
    while i < v.len()
        invariant
            i <= v.len(),
            r@ == v@.take(i as int),
        decreases v.len() - i,
    {
        r.push(v[i]);
        i = i + 1;
        assert(v@.take(i as int) =~= v@.take(i - 1).push(v@[i - 1]));
    }
    assert(v@.take(v.len() as int) =~= v@);
    r
}

impl ChannelHandshaker for MockChain {
    open spec fn handshake_log(&self) -> Seq<HandshakeStep> {
        self.handshake_steps@
    }

    fn build_chan_open_init_and_send(
        &mut self,
        ordering: ChannelOrdering,
        own_side: &ChannelSide,
        counterparty_side: &ChannelSide,
    ) -> (r: Result<ChainEvent, RelayError>) {
        if self.fail_submissions {
            return Err(RelayError::SubmissionError);
        }
        let assigned = self.next_channel_id;
        self.next_channel_id = if self.next_channel_id < u64::MAX {
            self.next_channel_id + 1
        } else {
            u64::MAX
        };
        self.handshake_steps.push(
            HandshakeStep {
                kind: HandshakeKind::Init,
                ordering,
                own_side: *own_side,
                counterparty_side: *counterparty_side,
                assigned_channel_id: assigned,
            },
        );
        Ok(
            ChainEvent::ChannelOpenInit {
                channel_id: assigned,
                port_id: own_side.port_id,
                connection_id: own_side.connection_id,
                counterparty_port: counterparty_side.port_id,
            },
        )
    }

    fn build_chan_open_try_and_send(
        &mut self,
        ordering: ChannelOrdering,
        own_side: &ChannelSide,
        counterparty_side: &ChannelSide,
    ) -> (r: Result<ChainEvent, RelayError>) {
        if self.fail_submissions {
            return Err(RelayError::SubmissionError);
        }
        let assigned = self.next_channel_id;
        self.next_channel_id = if self.next_channel_id < u64::MAX {
            self.next_channel_id + 1
        } else {
            u64::MAX
        };
        self.handshake_steps.push(
            HandshakeStep {
                kind: HandshakeKind::Try,
                ordering,
                own_side: *own_side,
                counterparty_side: *counterparty_side,
                assigned_channel_id: assigned,
            },
        );
        Ok(
            ChainEvent::ChannelOpenTry {
                channel_id: assigned,
                port_id: own_side.port_id,
                connection_id: own_side.connection_id,
                counterparty_port: counterparty_side.port_id,
            },
        )
    }

    fn build_chan_open_ack_and_send(
        &mut self,
        ordering: ChannelOrdering,
        own_side: &ChannelSide,
        counterparty_side: &ChannelSide,
    ) -> (r: Result<ChainEvent, RelayError>) {
        if self.fail_submissions {
            return Err(RelayError::SubmissionError);
        }
        let assigned = self.next_channel_id;
        self.next_channel_id = if self.next_channel_id < u64::MAX {
            self.next_channel_id + 1
        } else {
            u64::MAX
        };
        self.handshake_steps.push(
            HandshakeStep {
                kind: HandshakeKind::Ack,
                ordering,
                own_side: *own_side,
                counterparty_side: *counterparty_side,
                assigned_channel_id: assigned,
            },
        );
        Ok(
            ChainEvent::ChannelOpenAck {
                channel_id: assigned,
                port_id: own_side.port_id,
                connection_id: own_side.connection_id,
                counterparty_port: counterparty_side.port_id,
            },
        )
    }
}

/// A simulated node builder: each spawn yields a node derived from its
/// suffix, recorded in order; spawning can be switched to fail.
pub struct MockNodeBootstrapper {
    pub spawned: Vec<(u64, FullNode)>,
    pub fail_bootstraps: bool,
}

impl MockNodeBootstrapper {
    pub fn new() -> (r: MockNodeBootstrapper)
        ensures
            r.spawn_log() == Seq::<(u64, FullNode)>::empty(),
            !r.fail_bootstraps,
    {
        let r = MockNodeBootstrapper { spawned: Vec::new(), fail_bootstraps: false };
        proof {
            assert(r.spawned@ =~= Seq::<(u64, FullNode)>::empty());
        }
        r
    }
}

impl NodeBootstrapper for MockNodeBootstrapper {
    open spec fn spawn_log(&self) -> Seq<(u64, FullNode)> {
        self.spawned@
    }

    fn bootstrap_single_node(&mut self, suffix: u64) -> (r: Result<FullNode, RelayError>) {
        if self.fail_bootstraps {
            return Err(RelayError::QueryError);
        }
        let node = FullNode { chain_id: suffix, rpc_port: suffix, relayer_wallet: suffix };
        self.spawned.push((suffix, node));
        Ok(node)
    }
}

/// A simulated connection handshaker: each handshake yields a connection
/// derived from the two clients, with fresh identifiers, recorded in
/// order; handshaking can be switched to fail.
pub struct MockConnectionBootstrapper {
    pub handshakes: Vec<(ForeignClient, ForeignClient, ConnectedConnection)>,
    pub next_connection_id: u64,
    pub fail_bootstraps: bool,
}

impl MockConnectionBootstrapper {
    pub fn new() -> (r: MockConnectionBootstrapper)
        ensures
            r.bootstrap_log() == Seq::<(ForeignClient, ForeignClient, ConnectedConnection)>::empty(),
            !r.fail_bootstraps,
    {
        let r = MockConnectionBootstrapper {
            handshakes: Vec::new(),
            next_connection_id: 0,
            fail_bootstraps: false,
        };
        proof {
            assert(r.handshakes@ =~= Seq::<
                (ForeignClient, ForeignClient, ConnectedConnection),
            >::empty());
        }
        r
    }
}

impl ConnectionBootstrapper for MockConnectionBootstrapper {
    open spec fn bootstrap_log(&self) -> Seq<(ForeignClient, ForeignClient, ConnectedConnection)> {
        self.handshakes@
    }

    fn bootstrap_connection(
        &mut self,
        client_b_to_a: &ForeignClient,
        client_a_to_b: &ForeignClient,
    ) -> (r: Result<ConnectedConnection, RelayError>) {
        if self.fail_bootstraps {
            return Err(RelayError::SubmissionError);
        }
        let assigned = self.next_connection_id;
        self.next_connection_id = if self.next_connection_id < u64::MAX {
            self.next_connection_id + 1
        } else {
            u64::MAX
        };
        let connection = ConnectedConnection {
            chain_a: client_a_to_b.host_chain,
            chain_b: client_b_to_a.host_chain,
            client_id_a: client_a_to_b.client_id,
            client_id_b: client_b_to_a.client_id,
            connection_id_a: assigned,
            connection_id_b: assigned,
        };
        self.handshakes.push((*client_b_to_a, *client_a_to_b, connection));
        Ok(connection)
    }
}

/// A simulated clock: sleeping only adds the asked-for pause to a counter.
pub struct MockRuntime {
    pub slept_ms: u64,
}

impl MockRuntime {
    pub fn new() -> (r: MockRuntime)
        ensures
            r.slept_ms == 0,
    {
        MockRuntime { slept_ms: 0 }
    }
}

impl RelayRuntime for MockRuntime {
    fn sleep_ms(&mut self, milliseconds: u64) {
        self.slept_ms = if self.slept_ms <= u64::MAX - milliseconds {
            self.slept_ms + milliseconds
        } else {
            u64::MAX
        };
    }
}

} // verus!
