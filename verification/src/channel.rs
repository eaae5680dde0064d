//! Channel ends, the tagged view of them, channel handshaking, and the
//! checks that decide whether two channel ends have reached an expected
//! handshake or upgrade state.

use vstd::prelude::*;

use core::marker::PhantomData;

use crate::chain::ChannelKey;
use crate::errors::RelayError;
use crate::message::{ChainEvent, ChannelOrdering};
use crate::runtime::RelayRuntime;

verus! {

/// How many times an eventually-check is retried before giving up.
pub const RETRY_ATTEMPTS: usize = 20;

/// The pause between two retries of an eventually-check.
pub const RETRY_INTERVAL_MS: u64 = 1000;

/// Handshake and upgrade states of a channel end.
#[derive(Clone, Copy, Debug, PartialEq, Eq, Structural)]
pub enum ChannelState {
    Uninitialized,
    Init,
    TryOpen,
    Open,
    Closed,
    InitUpgrade,
    TryUpgrade,
}

/// Where a channel end stands in flushing in-flight packets during an
/// upgrade.
#[derive(Clone, Copy, Debug, PartialEq, Eq, Structural)]
pub enum FlushStatus {
    NotinflushUnspecified,
    Flushing,
    Flushcomplete,
}

/// The other end of a channel, as one end records it; the channel
/// identifier is unknown until the counterparty has initialised.
#[derive(Clone, Copy, Debug)]
pub struct ChannelCounterparty {
    pub port_id: u64,
    pub channel_id: Option<u64>,
}

/// One channel end as a chain stores it.
#[derive(Debug)]
pub struct ChannelEnd {
    pub state: ChannelState,
    pub ordering: ChannelOrdering,
    pub counterparty: ChannelCounterparty,
    pub connection_hops: Vec<u64>,
    pub version: u64,
    pub flush_status: FlushStatus,
}

/// The mathematical reading of a channel end.
pub struct ChannelEndView {
    pub state: ChannelState,
    pub ordering: ChannelOrdering,
    pub counterparty_port: u64,
    pub counterparty_channel: Option<u64>,
    pub connection_hops: Seq<u64>,
    pub version: u64,
    pub flush_status: FlushStatus,
}

impl View for ChannelEnd {
    type V = ChannelEndView;

    open spec fn view(&self) -> ChannelEndView {
        ChannelEndView {
            state: self.state,
            ordering: self.ordering,
            counterparty_port: self.counterparty.port_id,
            counterparty_channel: self.counterparty.channel_id,
            connection_hops: self.connection_hops@,
            version: self.version,
            flush_status: self.flush_status,
        }
    }
}

/// A value about one chain, tagged at the type level with the pair of
/// chains it belongs to, so ends cannot be mixed up.
pub struct DualTagged<TagA, TagB, T> {
    pub value: T,
    pub phantom: PhantomData<(TagA, TagB)>,
}

impl<TagA, TagB, T> DualTagged<TagA, TagB, T> {
    pub fn new(value: T) -> (r: DualTagged<TagA, TagB, T>)
        ensures
            r.value == value,
    {
        DualTagged { value, phantom: PhantomData }
    }
}

/// A channel identifier on the first tag's chain.
pub type TaggedChannelId<ChainA, ChainB> = DualTagged<ChainA, ChainB, u64>;

/// A port identifier on the first tag's chain.
pub type TaggedPortId<ChainA, ChainB> = DualTagged<ChainA, ChainB, u64>;

/// Read a tagged channel end from the counterparty's point of view.
pub trait TaggedChannelEndExt<ChainA, ChainB> {
    fn tagged_counterparty_channel_id(&self) -> (r: Option<TaggedChannelId<ChainB, ChainA>>);

    fn tagged_counterparty_port_id(&self) -> (r: TaggedPortId<ChainB, ChainA>);
}

impl<ChainA, ChainB> TaggedChannelEndExt<ChainA, ChainB> for DualTagged<
    ChainA,
    ChainB,
    ChannelEnd,
> {
    fn tagged_counterparty_channel_id(&self) -> (r: Option<TaggedChannelId<ChainB, ChainA>>)
        ensures
            r is Some <==> self.value@.counterparty_channel is Some,
            r is Some ==> r->0.value == self.value@.counterparty_channel->0,
    {
        match self.value.counterparty.channel_id {
            Some(channel_id) => Some(DualTagged::new(channel_id)),
            None => None,
        }
    }

    fn tagged_counterparty_port_id(&self) -> (r: TaggedPortId<ChainB, ChainA>)
        ensures
            r.value == self.value@.counterparty_port,
    {
        DualTagged::new(self.value.counterparty.port_id)
    }
}

/// Read channel ends off a chain. The map may change between queries as
/// the chain advances.
pub trait ChannelQuerier {
    spec fn channel_ends(&self) -> Map<ChannelKey, ChannelEndView>;

    fn query_channel(&mut self, port_id: u64, channel_id: u64) -> (r: Result<
        ChannelEnd,
        RelayError,
    >)
        ensures
            r is Ok <==> final(self).channel_ends().contains_key(
                ChannelKey { port_id, channel_id },
            ),
            r is Ok ==> r->Ok_0@ == final(self).channel_ends()[ChannelKey { port_id, channel_id }],
            r is Err ==> r->Err_0 == RelayError::QueryError,
    ;
}

/// Which handshake step a chain performed.
#[derive(Clone, Copy, Debug, PartialEq, Eq, Structural)]
pub enum HandshakeKind {
    Init,
    Try,
    Ack,
}

/// One handshake step a chain performed: what was handed to it, and the
/// channel identifier it assigned.
#[derive(Clone, Copy, Debug, PartialEq, Eq)]
pub struct HandshakeStep {
    pub kind: HandshakeKind,
    pub ordering: ChannelOrdering,
    pub own_side: ChannelSide,
    pub counterparty_side: ChannelSide,
    pub assigned_channel_id: u64,
}

/// Perform one channel handshake step on this chain, returning the event
/// the chain emitted for it. Every performed step is recorded, in order,
/// in the chain's handshake log, so callers can state exactly what was
/// sent.
pub trait ChannelHandshaker {
    spec fn handshake_log(&self) -> Seq<HandshakeStep>;

    fn build_chan_open_init_and_send(
        &mut self,
        ordering: ChannelOrdering,
        own_side: &ChannelSide,
        counterparty_side: &ChannelSide,
    ) -> (r: Result<ChainEvent, RelayError>)
        ensures
            r is Ok ==> r->Ok_0 is ChannelOpenInit,
            r is Ok ==> final(self).handshake_log() == old(self).handshake_log().push(
                (HandshakeStep {
                    kind: HandshakeKind::Init,
                    ordering,
                    own_side: *own_side,
                    counterparty_side: *counterparty_side,
                    assigned_channel_id: r->Ok_0->ChannelOpenInit_channel_id,
                }),
            ),
            r is Err ==> r->Err_0 == RelayError::SubmissionError && final(self).handshake_log()
                == old(self).handshake_log(),
    ;

    fn build_chan_open_try_and_send(
        &mut self,
        ordering: ChannelOrdering,
        own_side: &ChannelSide,
        counterparty_side: &ChannelSide,
    ) -> (r: Result<ChainEvent, RelayError>)
        ensures
            r is Ok ==> r->Ok_0 is ChannelOpenTry,
            r is Ok ==> final(self).handshake_log() == old(self).handshake_log().push(
                (HandshakeStep {
                    kind: HandshakeKind::Try,
                    ordering,
                    own_side: *own_side,
                    counterparty_side: *counterparty_side,
                    assigned_channel_id: r->Ok_0->ChannelOpenTry_channel_id,
                }),
            ),
            r is Err ==> r->Err_0 == RelayError::SubmissionError && final(self).handshake_log()
                == old(self).handshake_log(),
    ;

    fn build_chan_open_ack_and_send(
        &mut self,
        ordering: ChannelOrdering,
        own_side: &ChannelSide,
        counterparty_side: &ChannelSide,
    ) -> (r: Result<ChainEvent, RelayError>)
        ensures
            r is Ok ==> r->Ok_0 is ChannelOpenAck,
            r is Ok ==> final(self).handshake_log() == old(self).handshake_log().push(
                (HandshakeStep {
                    kind: HandshakeKind::Ack,
                    ordering,
                    own_side: *own_side,
                    counterparty_side: *counterparty_side,
                    assigned_channel_id: r->Ok_0->ChannelOpenAck_channel_id,
                }),
            ),
            r is Err ==> r->Err_0 == RelayError::SubmissionError && final(self).handshake_log()
                == old(self).handshake_log(),
    ;
}

/// One side of a channel under handshake.
#[derive(Clone, Copy, Debug, PartialEq, Eq)]
pub struct ChannelSide {
    pub client_id: u64,
    pub connection_id: u64,
    pub port_id: u64,
    pub channel_id: Option<u64>,
    pub version: Option<u64>,
}

impl ChannelSide {
    pub fn new(
        client_id: u64,
        connection_id: u64,
        port_id: u64,
        channel_id: Option<u64>,
        version: Option<u64>,
    ) -> (r: ChannelSide)
        ensures
            r == (ChannelSide { client_id, connection_id, port_id, channel_id, version }),
    {
        ChannelSide { client_id, connection_id, port_id, channel_id, version }
    }
}

/// A channel under handshake between the two tagged chains; side A is on
/// the first tag's chain.
pub struct Channel<ChainA, ChainB> {
    pub connection_delay: u64,
    pub ordering: ChannelOrdering,
    pub a_side: ChannelSide,
    pub b_side: ChannelSide,
    pub phantom: PhantomData<(ChainA, ChainB)>,
}

/// The channel identifier carried by a handshake event.
pub fn extract_channel_id(event: &ChainEvent) -> (r: Result<u64, RelayError>)
    ensures
        match *event {
            ChainEvent::ChannelOpenInit { channel_id, .. } => r == Ok::<u64, RelayError>(
                channel_id,
            ),
            ChainEvent::ChannelOpenTry { channel_id, .. } => r == Ok::<u64, RelayError>(
                channel_id,
            ),
            ChainEvent::ChannelOpenAck { channel_id, .. } => r == Ok::<u64, RelayError>(
                channel_id,
            ),
            _ => r == Err::<u64, RelayError>(RelayError::UnexpectedEvent),
        },
{
    match event {
        ChainEvent::ChannelOpenInit { channel_id, .. } => Ok(*channel_id),
        ChainEvent::ChannelOpenTry { channel_id, .. } => Ok(*channel_id),
        ChainEvent::ChannelOpenAck { channel_id, .. } => Ok(*channel_id),
        _ => Err(RelayError::UnexpectedEvent),
    }
}

/// The channel as the counterparty continues it after a handshake step on
/// the first chain: sides swap, and the stepped side now carries the
/// channel identifier the event assigned.
pub fn restore_from_event<ChainA, ChainB>(
    channel: &Channel<ChainA, ChainB>,
    event: &ChainEvent,
) -> (r: Result<Channel<ChainB, ChainA>, RelayError>)
    ensures
        r matches Ok(restored) ==> {
            &&& restored.connection_delay == channel.connection_delay
            &&& restored.ordering == channel.ordering
            &&& restored.a_side == channel.b_side
            &&& (extract_channel_id_spec(*event) matches Some(channel_id)
                && restored.b_side == (ChannelSide {
                channel_id: Some(channel_id),
                ..channel.a_side
            }))
        },
        r is Err ==> extract_channel_id_spec(*event) is None && r->Err_0
            == RelayError::UnexpectedEvent,
{
    let channel_id = extract_channel_id(event)?;
    Ok(
        Channel {
            connection_delay: channel.connection_delay,
            ordering: channel.ordering,
            a_side: channel.b_side,
            b_side: ChannelSide { channel_id: Some(channel_id), ..channel.a_side },
            phantom: PhantomData,
        },
    )
}

/// The channel identifier a handshake event carries, if it is one.
pub open spec fn extract_channel_id_spec(event: ChainEvent) -> Option<u64> {
    match event {
        ChainEvent::ChannelOpenInit { channel_id, .. } => Some(channel_id),
        ChainEvent::ChannelOpenTry { channel_id, .. } => Some(channel_id),
        ChainEvent::ChannelOpenAck { channel_id, .. } => Some(channel_id),
        _ => None,
    }
}

/// Open a channel handshake: send the open-init step on the first chain
/// and hand back the assigned channel identifier together with the
/// channel as the second chain continues it.
pub fn init_channel<HandleA, ChainA, ChainB>(
    handle_a: &mut HandleA,
    client_id_a: u64,
    client_id_b: u64,
    connection_id_a: u64,
    connection_id_b: u64,
    src_port_id: u64,
    dst_port_id: u64,
) -> (r: Result<(TaggedChannelId<ChainB, ChainA>, Channel<ChainB, ChainA>), RelayError>) where
    HandleA: ChannelHandshaker,

    ensures
        r matches Ok(done) ==> {
            &&& done.1.ordering is Unordered
            &&& done.1.b_side.channel_id == Some(done.0.value)
            &&& done.1.b_side.client_id == client_id_a
            &&& done.1.b_side.connection_id == connection_id_a
            &&& done.1.b_side.port_id == src_port_id
            &&& done.1.a_side.client_id == client_id_b
            &&& done.1.a_side.connection_id == connection_id_b
            &&& done.1.a_side.port_id == dst_port_id
            &&& done.1.a_side.channel_id is None
            &&& final(handle_a).handshake_log() == old(handle_a).handshake_log().push(
                (HandshakeStep {
                    kind: HandshakeKind::Init,
                    ordering: ChannelOrdering::Unordered,
                    own_side: ChannelSide {
                        client_id: client_id_a,
                        connection_id: connection_id_a,
                        port_id: src_port_id,
                        channel_id: None,
                        version: None,
                    },
                    counterparty_side: ChannelSide {
                        client_id: client_id_b,
                        connection_id: connection_id_b,
                        port_id: dst_port_id,
                        channel_id: None,
                        version: None,
                    },
                    assigned_channel_id: done.0.value,
                }),
            )
        },
        r is Err ==> r->Err_0 == RelayError::SubmissionError && final(handle_a).handshake_log()
            == old(handle_a).handshake_log(),
{
    let channel: Channel<ChainA, ChainB> = Channel {
        connection_delay: 0,
        ordering: ChannelOrdering::Unordered,
        a_side: ChannelSide::new(client_id_a, connection_id_a, src_port_id, None, None),
        b_side: ChannelSide::new(client_id_b, connection_id_b, dst_port_id, None, None),
        phantom: PhantomData,
    };
    let event = handle_a.build_chan_open_init_and_send(
        channel.ordering,
        &channel.a_side,
        &channel.b_side,
    )?;
    let channel_id = extract_channel_id(&event)?;
    let restored = restore_from_event(&channel, &event)?;
    Ok((DualTagged::new(channel_id), restored))
}

/// Open a channel handshake without knowing the first chain's connection
/// yet: only the assigned channel identifier is returned.
pub fn init_channel_optimistic<HandleA, ChainA, ChainB>(
    handle_a: &mut HandleA,
    client_id_a: u64,
    client_id_b: u64,
    connection_id_b: u64,
    src_port_id: u64,
    dst_port_id: u64,
) -> (r: Result<TaggedChannelId<ChainB, ChainA>, RelayError>) where
    HandleA: ChannelHandshaker,

    ensures
        r matches Ok(channel_id) ==> final(handle_a).handshake_log() == old(
            handle_a,
        ).handshake_log().push(
            (HandshakeStep {
                kind: HandshakeKind::Init,
                ordering: ChannelOrdering::Unordered,
                own_side: ChannelSide {
                    client_id: client_id_a,
                    connection_id: 0,
                    port_id: src_port_id,
                    channel_id: None,
                    version: None,
                },
                counterparty_side: ChannelSide {
                    client_id: client_id_b,
                    connection_id: connection_id_b,
                    port_id: dst_port_id,
                    channel_id: None,
                    version: None,
                },
                assigned_channel_id: channel_id.value,
            }),
        ),
        r is Err ==> r->Err_0 == RelayError::SubmissionError && final(handle_a).handshake_log()
            == old(handle_a).handshake_log(),
{
    let channel: Channel<ChainA, ChainB> = Channel {
        connection_delay: 0,
        ordering: ChannelOrdering::Unordered,
        a_side: ChannelSide::new(client_id_a, 0, src_port_id, None, None),
        b_side: ChannelSide::new(client_id_b, connection_id_b, dst_port_id, None, None),
        phantom: PhantomData,
    };
    let event = handle_a.build_chan_open_init_and_send(
        channel.ordering,
        &channel.a_side,
        &channel.b_side,
    )?;
    let channel_id = extract_channel_id(&event)?;
    Ok(DualTagged::new(channel_id))
}

/// Continue the handshake with the open-try step on the handle's chain.
pub fn try_channel<Handle, ChainA, ChainB>(
    handle: &mut Handle,
    channel: &Channel<ChainB, ChainA>,
) -> (r: Result<(TaggedChannelId<ChainA, ChainB>, Channel<ChainA, ChainB>), RelayError>) where
    Handle: ChannelHandshaker,

    ensures
        r matches Ok(done) ==> {
            &&& done.1.connection_delay == channel.connection_delay
            &&& done.1.ordering == channel.ordering
            &&& done.1.a_side == channel.b_side
            &&& done.1.b_side == (ChannelSide { channel_id: Some(done.0.value), ..channel.a_side })
            &&& final(handle).handshake_log() == old(handle).handshake_log().push(
                (HandshakeStep {
                    kind: HandshakeKind::Try,
                    ordering: channel.ordering,
                    own_side: channel.a_side,
                    counterparty_side: channel.b_side,
                    assigned_channel_id: done.0.value,
                }),
            )
        },
        r is Err ==> r->Err_0 == RelayError::SubmissionError && final(handle).handshake_log()
            == old(handle).handshake_log(),
{
    let event = handle.build_chan_open_try_and_send(
        channel.ordering,
        &channel.a_side,
        &channel.b_side,
    )?;
    let channel_id = extract_channel_id(&event)?;
    let restored = restore_from_event(channel, &event)?;
    Ok((DualTagged::new(channel_id), restored))
}

/// Finish this side of the handshake with the open-ack step on the
/// handle's chain.
pub fn ack_channel<Handle, ChainA, ChainB>(
    handle: &mut Handle,
    channel: &Channel<ChainB, ChainA>,
) -> (r: Result<(TaggedChannelId<ChainA, ChainB>, Channel<ChainA, ChainB>), RelayError>) where
    Handle: ChannelHandshaker,

    ensures
        r matches Ok(done) ==> {
            &&& done.1.connection_delay == channel.connection_delay
            &&& done.1.ordering == channel.ordering
            &&& done.1.a_side == channel.b_side
            &&& done.1.b_side == (ChannelSide { channel_id: Some(done.0.value), ..channel.a_side })
            &&& final(handle).handshake_log() == old(handle).handshake_log().push(
                (HandshakeStep {
                    kind: HandshakeKind::Ack,
                    ordering: channel.ordering,
                    own_side: channel.a_side,
                    counterparty_side: channel.b_side,
                    assigned_channel_id: done.0.value,
                }),
            )
        },
        r is Err ==> r->Err_0 == RelayError::SubmissionError && final(handle).handshake_log()
            == old(handle).handshake_log(),
{
    let event = handle.build_chan_open_ack_and_send(
        channel.ordering,
        &channel.a_side,
        &channel.b_side,
    )?;
    let channel_id = extract_channel_id(&event)?;
    let restored = restore_from_event(channel, &event)?;
    Ok((DualTagged::new(channel_id), restored))
}

/// Query one channel end, tagged with its chain pair.
pub fn query_channel_end<HandleA, ChainA, ChainB>(
    handle: &mut HandleA,
    channel_id: TaggedChannelId<ChainA, ChainB>,
    port_id: TaggedPortId<ChainA, ChainB>,
) -> (r: Result<DualTagged<ChainA, ChainB, ChannelEnd>, RelayError>) where
    HandleA: ChannelQuerier,

    ensures
        ({
            let key = ChannelKey { port_id: port_id.value, channel_id: channel_id.value };
            &&& r is Ok <==> final(handle).channel_ends().contains_key(key)
            &&& (r matches Ok(end) ==> end.value@ == final(handle).channel_ends()[key])
            &&& (r is Err ==> r->Err_0 == RelayError::QueryError)
        }),
{
    let end = handle.query_channel(port_id.value, channel_id.value)?;
    Ok(DualTagged::new(end))
}

/// One channel end together with its identifiers.
pub struct IdentifiedChannelEnd {
    pub port_id: u64,
    pub channel_id: u64,
    pub channel_end: ChannelEnd,
}

/// Query one channel end together with the identifiers it was asked under.
pub fn query_identified_channel_end<HandleA, ChainA, ChainB>(
    handle: &mut HandleA,
    channel_id: TaggedChannelId<ChainA, ChainB>,
    port_id: TaggedPortId<ChainA, ChainB>,
) -> (r: Result<DualTagged<ChainA, ChainB, IdentifiedChannelEnd>, RelayError>) where
    HandleA: ChannelQuerier,

    ensures
        ({
            let key = ChannelKey { port_id: port_id.value, channel_id: channel_id.value };
            &&& r is Ok <==> final(handle).channel_ends().contains_key(key)
            &&& (r matches Ok(identified) ==> identified.value.channel_end@ == final(handle).channel_ends()[key] && identified.value.port_id == port_id.value
                && identified.value.channel_id == channel_id.value)
            &&& (r is Err ==> r->Err_0 == RelayError::QueryError)
        }),
{
    let end = handle.query_channel(port_id.value, channel_id.value)?;
    Ok(
        DualTagged::new(
            IdentifiedChannelEnd {
                port_id: port_id.value,
                channel_id: channel_id.value,
                channel_end: end,
            },
        ),
    )
}

/// Whether two `u64` vectors hold the same sequence.
fn vec_u64_eq(a: &Vec<u64>, b: &Vec<u64>) -> (r: bool)
    ensures
        r == (a@ == b@),
{
    if a.len() != b.len() {
        return false;
    }
    let mut i: usize = 0;
    while i < a.len()
        invariant
            i <= a@.len(),
            a@.len() == b@.len(),
            forall|j: int| 0 <= j < i ==> a@[j] == b@[j],
        decreases a@.len() - i,
    {
        if a[i] != b[i] {
            return false;
        }
        i = i + 1;
    }
    proof {
        assert(a@ =~= b@);
    }
    true
}

/// The attributes a channel upgrade may change, against which both ends
/// are checked.
pub struct ChannelUpgradableAttributes {
    pub version: u64,
    pub ordering: ChannelOrdering,
    pub connection_hops_a: Vec<u64>,
    pub connection_hops_b: Vec<u64>,
}

impl ChannelUpgradableAttributes {
    pub fn new(
        version: u64,
        ordering: ChannelOrdering,
        connection_hops_a: Vec<u64>,
        connection_hops_b: Vec<u64>,
    ) -> (r: ChannelUpgradableAttributes)
        ensures
            r.version == version,
            r.ordering == ordering,
            r.connection_hops_a@ == connection_hops_a@,
            r.connection_hops_b@ == connection_hops_b@,
    {
        ChannelUpgradableAttributes { version, ordering, connection_hops_a, connection_hops_b }
    }

    pub fn version(&self) -> (r: u64)
        ensures
            r == self.version,
    {
        self.version
    }

    pub fn ordering(&self) -> (r: ChannelOrdering)
        ensures
            r == self.ordering,
    {
        self.ordering
    }

    pub fn connection_hops_a(&self) -> (r: &Vec<u64>)
        ensures
            r@ == self.connection_hops_a@,
    {
        &self.connection_hops_a
    }

    pub fn connection_hops_b(&self) -> (r: &Vec<u64>)
        ensures
            r@ == self.connection_hops_b@,
    {
        &self.connection_hops_b
    }
}

/// The first reason one channel end fails an expectation, checked in the
/// order: state, flush status, version, ordering, connection hops.
pub open spec fn spec_side_failure(
    end: ChannelEndView,
    expected_state: ChannelState,
    expected_flush: FlushStatus,
    version: u64,
    ordering: ChannelOrdering,
    hops: Seq<u64>,
) -> Option<RelayError> {
    if end.state != expected_state {
        Some(RelayError::ChannelStateMismatch)
    } else if end.flush_status != expected_flush {
        Some(RelayError::FlushStatusMismatch)
    } else if end.version != version {
        Some(RelayError::VersionMismatch)
    } else if end.ordering != ordering {
        Some(RelayError::OrderingMismatch)
    } else if end.connection_hops != hops {
        Some(RelayError::ConnectionHopsMismatch)
    } else {
        None
    }
}

/// Exec mirror of [`spec_side_failure`].
fn side_failure(
    end: &ChannelEnd,
    expected_state: ChannelState,
    expected_flush: FlushStatus,
    version: u64,
    ordering: ChannelOrdering,
    hops: &Vec<u64>,
) -> (r: Option<RelayError>)
    ensures
        r == spec_side_failure(end@, expected_state, expected_flush, version, ordering, hops@),
{
    if end.state != expected_state {
        Some(RelayError::ChannelStateMismatch)
    } else if end.flush_status != expected_flush {
        Some(RelayError::FlushStatusMismatch)
    } else if end.version != version {
        Some(RelayError::VersionMismatch)
    } else if end.ordering != ordering {
        Some(RelayError::OrderingMismatch)
    } else if !vec_u64_eq(&end.connection_hops, hops) {
        Some(RelayError::ConnectionHopsMismatch)
    } else {
        None
    }
}

/// The outcome of checking one upgrade step across both ends: the first
/// failure in query order, or side B's channel identifier when every
/// expectation holds.
pub open spec fn spec_upgrade_check(
    ends_a: Map<ChannelKey, ChannelEndView>,
    key_a: ChannelKey,
    ends_b: Map<ChannelKey, ChannelEndView>,
    a_side_state: ChannelState,
    b_side_state: ChannelState,
    a_side_flush: FlushStatus,
    b_side_flush: FlushStatus,
    version: u64,
    ordering: ChannelOrdering,
    hops_a: Seq<u64>,
    hops_b: Seq<u64>,
) -> Result<u64, RelayError> {
    if !ends_a.contains_key(key_a) {
        Err(RelayError::QueryError)
    } else {
        let end_a = ends_a[key_a];
        if spec_side_failure(end_a, a_side_state, a_side_flush, version, ordering, hops_a)
            is Some {
            Err(spec_side_failure(end_a, a_side_state, a_side_flush, version, ordering, hops_a)->0)
        } else if end_a.counterparty_channel is None {
            Err(RelayError::MissingCounterpartyChannel)
        } else {
            let key_b = ChannelKey {
                port_id: end_a.counterparty_port,
                channel_id: end_a.counterparty_channel->0,
            };
            if !ends_b.contains_key(key_b) {
                Err(RelayError::QueryError)
            } else if spec_side_failure(
                ends_b[key_b],
                b_side_state,
                b_side_flush,
                version,
                ordering,
                hops_b,
            ) is Some {
                Err(
                    spec_side_failure(
                        ends_b[key_b],
                        b_side_state,
                        b_side_flush,
                        version,
                        ordering,
                        hops_b,
                    )->0,
                )
            } else {
                Ok(key_b.channel_id)
            }
        }
    }
}

/// Check one upgrade step: side A must sit in `a_side_state` with
/// `a_side_flush` and the upgraded attributes, its counterparty channel
/// must be recorded, and that counterparty end on chain B must sit in
/// `b_side_state` with `b_side_flush` and the same attributes, with side
/// B's hops. Returns side B's channel identifier.
fn assert_channel_upgrade_state<HandleA, HandleB, ChainA, ChainB>(
    a_side_state: ChannelState,
    b_side_state: ChannelState,
    a_side_flush_status: FlushStatus,
    b_side_flush_status: FlushStatus,
    handle_a: &mut HandleA,
    handle_b: &mut HandleB,
    channel_id_a: TaggedChannelId<ChainA, ChainB>,
    port_id_a: TaggedPortId<ChainA, ChainB>,
    upgrade_attrs: &ChannelUpgradableAttributes,
) -> (r: Result<TaggedChannelId<ChainB, ChainA>, RelayError>) where
    HandleA: ChannelQuerier,
    HandleB: ChannelQuerier,

    ensures
        ({
            let outcome = spec_upgrade_check(
                final(handle_a).channel_ends(),
                ChannelKey { port_id: port_id_a.value, channel_id: channel_id_a.value },
                final(handle_b).channel_ends(),
                a_side_state,
                b_side_state,
                a_side_flush_status,
                b_side_flush_status,
                upgrade_attrs.version,
                upgrade_attrs.ordering,
                upgrade_attrs.connection_hops_a@,
                upgrade_attrs.connection_hops_b@,
            );
            match r {
                Ok(channel_id_b) => outcome == Ok::<u64, RelayError>(channel_id_b.value),
                Err(error) => outcome == Err::<u64, RelayError>(error),
            }
        }),
{
    let channel_end_a = match handle_a.query_channel(port_id_a.value, channel_id_a.value) {
        Ok(end) => end,
        Err(error) => {
            return Err(error);
        },
    };
    if let Some(error) = side_failure(
        &channel_end_a,
        a_side_state,
        a_side_flush_status,
        upgrade_attrs.version,
        upgrade_attrs.ordering,
        &upgrade_attrs.connection_hops_a,
    ) {
        return Err(error);
    }
    let tagged_end_a: DualTagged<ChainA, ChainB, ChannelEnd> = DualTagged::new(channel_end_a);
    let channel_id_b = match tagged_end_a.tagged_counterparty_channel_id() {
        Some(channel_id_b) => channel_id_b,
        None => {
            return Err(RelayError::MissingCounterpartyChannel);
        },
    };
    let port_id_b = tagged_end_a.tagged_counterparty_port_id();
    let channel_end_b = match handle_b.query_channel(port_id_b.value, channel_id_b.value) {
        Ok(end) => end,
        Err(error) => {
            return Err(error);
        },
    };
    if let Some(error) = side_failure(
        &channel_end_b,
        b_side_state,
        b_side_flush_status,
        upgrade_attrs.version,
        upgrade_attrs.ordering,
        &upgrade_attrs.connection_hops_b,
    ) {
        return Err(error);
    }
    Ok(channel_id_b)
}

/// The outcome of checking that both ends of a channel are open: side A
/// must be open and record its counterparty, which must be open on B.
pub open spec fn spec_established_check(
    ends_a: Map<ChannelKey, ChannelEndView>,
    key_a: ChannelKey,
    ends_b: Map<ChannelKey, ChannelEndView>,
) -> Result<u64, RelayError> {
    if !ends_a.contains_key(key_a) {
        Err(RelayError::QueryError)
    } else {
        let end_a = ends_a[key_a];
        if end_a.state != ChannelState::Open {
            Err(RelayError::ChannelStateMismatch)
        } else if end_a.counterparty_channel is None {
            Err(RelayError::MissingCounterpartyChannel)
        } else {
            let key_b = ChannelKey {
                port_id: end_a.counterparty_port,
                channel_id: end_a.counterparty_channel->0,
            };
            if !ends_b.contains_key(key_b) {
                Err(RelayError::QueryError)
            } else if ends_b[key_b].state != ChannelState::Open {
                Err(RelayError::ChannelStateMismatch)
            } else {
                Ok(key_b.channel_id)
            }
        }
    }
}

/// Check once that both ends are open; returns side B's channel
/// identifier.
fn check_channel_established<HandleA, HandleB, ChainA, ChainB>(
    handle_a: &mut HandleA,
    handle_b: &mut HandleB,
    channel_id_a: TaggedChannelId<ChainA, ChainB>,
    port_id_a: TaggedPortId<ChainA, ChainB>,
) -> (r: Result<TaggedChannelId<ChainB, ChainA>, RelayError>) where
    HandleA: ChannelQuerier,
    HandleB: ChannelQuerier,

    ensures
        ({
            let outcome = spec_established_check(
                final(handle_a).channel_ends(),
                ChannelKey { port_id: port_id_a.value, channel_id: channel_id_a.value },
                final(handle_b).channel_ends(),
            );
            match r {
                Ok(channel_id_b) => outcome == Ok::<u64, RelayError>(channel_id_b.value),
                Err(error) => outcome == Err::<u64, RelayError>(error),
            }
        }),
{
    let channel_end_a = match handle_a.query_channel(port_id_a.value, channel_id_a.value) {
        Ok(end) => end,
        Err(error) => {
            return Err(error);
        },
    };
    if !(channel_end_a.state == ChannelState::Open) {
        return Err(RelayError::ChannelStateMismatch);
    }
    let tagged_end_a: DualTagged<ChainA, ChainB, ChannelEnd> = DualTagged::new(channel_end_a);
    let channel_id_b = match tagged_end_a.tagged_counterparty_channel_id() {
        Some(channel_id_b) => channel_id_b,
        None => {
            return Err(RelayError::MissingCounterpartyChannel);
        },
    };
    let port_id_b = tagged_end_a.tagged_counterparty_port_id();
    let channel_end_b = match handle_b.query_channel(port_id_b.value, channel_id_b.value) {
        Ok(end) => end,
        Err(error) => {
            return Err(error);
        },
    };
    if !(channel_end_b.state == ChannelState::Open) {
        return Err(RelayError::ChannelStateMismatch);
    }
    Ok(channel_id_b)
}

/// Wait until both ends of the channel are open, re-querying a bounded
/// number of times with a pause between polls; the check that was current
/// at the last poll decides the result.
pub fn assert_eventually_channel_established<HandleA, HandleB, Runtime, ChainA, ChainB>(
    handle_a: &mut HandleA,
    handle_b: &mut HandleB,
    runtime: &mut Runtime,
    channel_id_a: TaggedChannelId<ChainA, ChainB>,
    port_id_a: TaggedPortId<ChainA, ChainB>,
) -> (r: Result<TaggedChannelId<ChainB, ChainA>, RelayError>) where
    HandleA: ChannelQuerier,
    HandleB: ChannelQuerier,
    Runtime: RelayRuntime,

    ensures
        ({
            let outcome = spec_established_check(
                final(handle_a).channel_ends(),
                ChannelKey { port_id: port_id_a.value, channel_id: channel_id_a.value },
                final(handle_b).channel_ends(),
            );
            match r {
                Ok(channel_id_b) => outcome == Ok::<u64, RelayError>(channel_id_b.value),
                Err(error) => outcome == Err::<u64, RelayError>(error),
            }
        }),
{
    let mut attempts: usize = 0;
    while attempts < RETRY_ATTEMPTS
        invariant
            attempts < RETRY_ATTEMPTS,
        decreases RETRY_ATTEMPTS - attempts,
    {
        let channel_id_a_again: TaggedChannelId<ChainA, ChainB> = DualTagged::new(
            channel_id_a.value,
        );
        let port_id_a_again: TaggedPortId<ChainA, ChainB> = DualTagged::new(port_id_a.value);
        match check_channel_established(handle_a, handle_b, channel_id_a_again, port_id_a_again) {
            Ok(channel_id_b) => {
                return Ok(channel_id_b);
            },
            Err(error) => {
                if attempts + 1 == RETRY_ATTEMPTS {
                    return Err(error);
                }
                runtime.sleep_ms(RETRY_INTERVAL_MS);
            },
        }
        attempts = attempts + 1;
    }
    unreached()
}

/// Wait until side A has initialised a channel upgrade that side B has
/// not yet taken up: A in the init-upgrade state, B still open, neither
/// flushing.
pub fn assert_eventually_channel_upgrade_init<HandleA, HandleB, Runtime, ChainA, ChainB>(
    handle_a: &mut HandleA,
    handle_b: &mut HandleB,
    runtime: &mut Runtime,
    channel_id_a: TaggedChannelId<ChainA, ChainB>,
    port_id_a: TaggedPortId<ChainA, ChainB>,
    upgrade_attrs: &ChannelUpgradableAttributes,
) -> (r: Result<TaggedChannelId<ChainB, ChainA>, RelayError>) where
    HandleA: ChannelQuerier,
    HandleB: ChannelQuerier,
    Runtime: RelayRuntime,

    ensures
        ({
            let outcome = spec_upgrade_check(
                final(handle_a).channel_ends(),
                ChannelKey { port_id: port_id_a.value, channel_id: channel_id_a.value },
                final(handle_b).channel_ends(),
                ChannelState::InitUpgrade,
                ChannelState::Open,
                FlushStatus::NotinflushUnspecified,
                FlushStatus::NotinflushUnspecified,
                upgrade_attrs.version,
                upgrade_attrs.ordering,
                upgrade_attrs.connection_hops_a@,
                upgrade_attrs.connection_hops_b@,
            );
            match r {
                Ok(channel_id_b) => outcome == Ok::<u64, RelayError>(channel_id_b.value),
                Err(error) => outcome == Err::<u64, RelayError>(error),
            }
        }),
{
    let mut attempts: usize = 0;
    while attempts < RETRY_ATTEMPTS
        invariant
            attempts < RETRY_ATTEMPTS,
        decreases RETRY_ATTEMPTS - attempts,
    {
        let channel_id_a_again: TaggedChannelId<ChainA, ChainB> = DualTagged::new(
            channel_id_a.value,
        );
        let port_id_a_again: TaggedPortId<ChainA, ChainB> = DualTagged::new(port_id_a.value);
        match assert_channel_upgrade_state(
            ChannelState::InitUpgrade,
            ChannelState::Open,
            FlushStatus::NotinflushUnspecified,
            FlushStatus::NotinflushUnspecified,
            handle_a,
            handle_b,
            channel_id_a_again,
            port_id_a_again,
            upgrade_attrs,
        ) {
            Ok(channel_id_b) => {
                return Ok(channel_id_b);
            },
            Err(error) => {
                if attempts + 1 == RETRY_ATTEMPTS {
                    return Err(error);
                }
                runtime.sleep_ms(RETRY_INTERVAL_MS);
            },
        }
        attempts = attempts + 1;
    }
    unreached()
}

/// Wait until side B has taken up the upgrade side A initialised: A still
/// in the init-upgrade state, B in the try-upgrade state with its packet
/// flush complete.
pub fn assert_eventually_channel_upgrade_try<HandleA, HandleB, Runtime, ChainA, ChainB>(
    handle_a: &mut HandleA,
    handle_b: &mut HandleB,
    runtime: &mut Runtime,
    channel_id_a: TaggedChannelId<ChainA, ChainB>,
    port_id_a: TaggedPortId<ChainA, ChainB>,
    upgrade_attrs: &ChannelUpgradableAttributes,
) -> (r: Result<TaggedChannelId<ChainB, ChainA>, RelayError>) where
    HandleA: ChannelQuerier,
    HandleB: ChannelQuerier,
    Runtime: RelayRuntime,

    ensures
        ({
            let outcome = spec_upgrade_check(
                final(handle_a).channel_ends(),
                ChannelKey { port_id: port_id_a.value, channel_id: channel_id_a.value },
                final(handle_b).channel_ends(),
                ChannelState::InitUpgrade,
                ChannelState::TryUpgrade,
                FlushStatus::NotinflushUnspecified,
                FlushStatus::Flushcomplete,
                upgrade_attrs.version,
                upgrade_attrs.ordering,
                upgrade_attrs.connection_hops_a@,
                upgrade_attrs.connection_hops_b@,
            );
            match r {
                Ok(channel_id_b) => outcome == Ok::<u64, RelayError>(channel_id_b.value),
                Err(error) => outcome == Err::<u64, RelayError>(error),
            }
        }),
{
    let mut attempts: usize = 0;
    while attempts < RETRY_ATTEMPTS
        invariant
            attempts < RETRY_ATTEMPTS,
        decreases RETRY_ATTEMPTS - attempts,
    {
        let channel_id_a_again: TaggedChannelId<ChainA, ChainB> = DualTagged::new(
            channel_id_a.value,
        );
        let port_id_a_again: TaggedPortId<ChainA, ChainB> = DualTagged::new(port_id_a.value);
        match assert_channel_upgrade_state(
            ChannelState::InitUpgrade,
            ChannelState::TryUpgrade,
            FlushStatus::NotinflushUnspecified,
            FlushStatus::Flushcomplete,
            handle_a,
            handle_b,
            channel_id_a_again,
            port_id_a_again,
            upgrade_attrs,
        ) {
            Ok(channel_id_b) => {
                return Ok(channel_id_b);
            },
            Err(error) => {
                if attempts + 1 == RETRY_ATTEMPTS {
                    return Err(error);
                }
                runtime.sleep_ms(RETRY_INTERVAL_MS);
            },
        }
        attempts = attempts + 1;
    }
    unreached()
}

} // verus!
