use relay_engine::chain::ChannelKey;
use relay_engine::channel::{
    ack_channel, assert_eventually_channel_established, assert_eventually_channel_upgrade_init,
    assert_eventually_channel_upgrade_try, extract_channel_id, init_channel,
    init_channel_optimistic, query_channel_end, query_identified_channel_end, try_channel,
    ChannelCounterparty, ChannelEnd, ChannelState, ChannelUpgradableAttributes, DualTagged,
    FlushStatus, TaggedChannelEndExt,
};
use relay_engine::errors::RelayError;
use relay_engine::message::{ChainEvent, ChannelOrdering};
use relay_engine::mock::{MockChain, MockRuntime};

struct SideA;
struct SideB;

fn open_end(counterparty_port: u64, counterparty_channel: Option<u64>) -> ChannelEnd {
    ChannelEnd {
        state: ChannelState::Open,
        ordering: ChannelOrdering::Unordered,
        counterparty: ChannelCounterparty {
            port_id: counterparty_port,
            channel_id: counterparty_channel,
        },
        connection_hops: vec![1],
        version: 20,
        flush_status: FlushStatus::NotinflushUnspecified,
    }
}

#[test]
fn extract_channel_id_reads_handshake_events() {
    let event = ChainEvent::ChannelOpenInit {
        channel_id: 12,
        port_id: 1,
        connection_id: 2,
        counterparty_port: 3,
    };
    assert_eq!(extract_channel_id(&event), Ok(12));
    assert_eq!(
        extract_channel_id(&ChainEvent::Generic { code: 1 }),
        Err(RelayError::UnexpectedEvent)
    );
}

#[test]
fn channel_handshake_assigns_and_flips() {
    let mut chain_a = MockChain::new(1, 10, 100);
    let (channel_id, channel) =
        init_channel::<MockChain, SideA, SideB>(&mut chain_a, 5, 6, 7, 8, 100, 200)
            .expect("the init step succeeds");
    assert_eq!(channel_id.value, 0);
    assert_eq!(channel.b_side.channel_id, Some(0));
    assert_eq!(channel.b_side.port_id, 100);
    assert_eq!(channel.a_side.port_id, 200);
    let mut chain_b = MockChain::new(2, 10, 100);
    let (try_id, channel) = try_channel::<MockChain, SideA, SideB>(&mut chain_b, &channel)
        .expect("the try step succeeds");
    assert_eq!(try_id.value, 0);
    assert_eq!(channel.b_side.channel_id, Some(0));
    let (ack_id, _channel) = ack_channel::<MockChain, SideB, SideA>(&mut chain_a, &channel)
        .expect("the ack step succeeds");
    assert_eq!(ack_id.value, 1);
}

#[test]
fn optimistic_init_returns_the_assigned_channel() {
    let mut chain_a = MockChain::new(1, 10, 100);
    let channel_id =
        init_channel_optimistic::<MockChain, SideA, SideB>(&mut chain_a, 5, 6, 8, 100, 200)
            .expect("the init step succeeds");
    assert_eq!(channel_id.value, 0);
}

#[test]
fn tagged_channel_end_reads_its_counterparty() {
    let tagged: DualTagged<SideA, SideB, ChannelEnd> = DualTagged::new(open_end(33, Some(44)));
    let channel_id = tagged.tagged_counterparty_channel_id().expect("present");
    assert_eq!(channel_id.value, 44);
    assert_eq!(tagged.tagged_counterparty_port_id().value, 33);
}

#[test]
fn query_channel_end_returns_the_stored_end() {
    let mut chain = MockChain::new(1, 10, 100);
    chain.set_channel(ChannelKey { port_id: 70, channel_id: 71 }, open_end(33, Some(44)));
    let end = query_channel_end::<MockChain, SideA, SideB>(
        &mut chain,
        DualTagged::new(71),
        DualTagged::new(70),
    )
    .expect("the end is stored");
    assert!(matches!(end.value.state, ChannelState::Open));
    let identified = query_identified_channel_end::<MockChain, SideA, SideB>(
        &mut chain,
        DualTagged::new(71),
        DualTagged::new(70),
    )
    .expect("the end is stored");
    assert_eq!(identified.value.port_id, 70);
    assert_eq!(identified.value.channel_id, 71);
    let missing = query_channel_end::<MockChain, SideA, SideB>(
        &mut chain,
        DualTagged::new(9),
        DualTagged::new(9),
    );
    assert!(missing.is_err());
}

#[test]
fn channel_established_check_follows_the_counterparty() {
    let mut chain_a = MockChain::new(1, 10, 100);
    chain_a.set_channel(ChannelKey { port_id: 100, channel_id: 1 }, open_end(200, Some(2)));
    let mut chain_b = MockChain::new(2, 10, 100);
    chain_b.set_channel(ChannelKey { port_id: 200, channel_id: 2 }, open_end(100, Some(1)));
    let mut runtime = MockRuntime::new();
    let channel_id_b = assert_eventually_channel_established::<_, _, _, SideA, SideB>(
        &mut chain_a,
        &mut chain_b,
        &mut runtime,
        DualTagged::new(1),
        DualTagged::new(100),
    )
    .expect("both ends are open");
    assert_eq!(channel_id_b.value, 2);
    assert_eq!(runtime.slept_ms, 0);
}

#[test]
fn channel_established_check_fails_on_a_closed_end() {
    let mut chain_a = MockChain::new(1, 10, 100);
    let mut end = open_end(200, Some(2));
    end.state = ChannelState::Closed;
    chain_a.set_channel(ChannelKey { port_id: 100, channel_id: 1 }, end);
    let mut chain_b = MockChain::new(2, 10, 100);
    let mut runtime = MockRuntime::new();
    let result = assert_eventually_channel_established::<_, _, _, SideA, SideB>(
        &mut chain_a,
        &mut chain_b,
        &mut runtime,
        DualTagged::new(1),
        DualTagged::new(100),
    );
    assert_eq!(result.map(|_| ()), Err(RelayError::ChannelStateMismatch));
    // Nineteen pauses: every attempt but the last sleeps.
    assert_eq!(runtime.slept_ms, 19 * 1000);
}

fn upgrade_attrs() -> ChannelUpgradableAttributes {
    ChannelUpgradableAttributes::new(20, ChannelOrdering::Unordered, vec![1], vec![2])
}

fn upgrade_end_a() -> ChannelEnd {
    ChannelEnd {
        state: ChannelState::InitUpgrade,
        ordering: ChannelOrdering::Unordered,
        counterparty: ChannelCounterparty { port_id: 200, channel_id: Some(2) },
        connection_hops: vec![1],
        version: 20,
        flush_status: FlushStatus::NotinflushUnspecified,
    }
}

fn upgrade_end_b(state: ChannelState, flush: FlushStatus) -> ChannelEnd {
    ChannelEnd {
        state,
        ordering: ChannelOrdering::Unordered,
        counterparty: ChannelCounterparty { port_id: 100, channel_id: Some(1) },
        connection_hops: vec![2],
        version: 20,
        flush_status: flush,
    }
}

#[test]
fn channel_upgrade_init_check_passes_on_matching_ends() {
    let mut chain_a = MockChain::new(1, 10, 100);
    chain_a.set_channel(ChannelKey { port_id: 100, channel_id: 1 }, upgrade_end_a());
    let mut chain_b = MockChain::new(2, 10, 100);
    chain_b.set_channel(
        ChannelKey { port_id: 200, channel_id: 2 },
        upgrade_end_b(ChannelState::Open, FlushStatus::NotinflushUnspecified),
    );
    let mut runtime = MockRuntime::new();
    let channel_id_b = assert_eventually_channel_upgrade_init::<_, _, _, SideA, SideB>(
        &mut chain_a,
        &mut chain_b,
        &mut runtime,
        DualTagged::new(1),
        DualTagged::new(100),
        &upgrade_attrs(),
    )
    .expect("the upgrade is initialised");
    assert_eq!(channel_id_b.value, 2);
}

#[test]
fn channel_upgrade_try_check_demands_flush_complete() {
    let mut chain_a = MockChain::new(1, 10, 100);
    chain_a.set_channel(ChannelKey { port_id: 100, channel_id: 1 }, upgrade_end_a());
    let mut chain_b = MockChain::new(2, 10, 100);
    chain_b.set_channel(
        ChannelKey { port_id: 200, channel_id: 2 },
        upgrade_end_b(ChannelState::TryUpgrade, FlushStatus::Flushing),
    );
    let mut runtime = MockRuntime::new();
    let result = assert_eventually_channel_upgrade_try::<_, _, _, SideA, SideB>(
        &mut chain_a,
        &mut chain_b,
        &mut runtime,
        DualTagged::new(1),
        DualTagged::new(100),
        &upgrade_attrs(),
    );
    assert_eq!(result.map(|_| ()), Err(RelayError::FlushStatusMismatch));
}

#[test]
fn channel_upgrade_check_reports_each_mismatch() {
    let attrs = upgrade_attrs();
    let mut runtime = MockRuntime::new();

    // Wrong version on side A.
    let mut chain_a = MockChain::new(1, 10, 100);
    let mut end = upgrade_end_a();
    end.version = 21;
    chain_a.set_channel(ChannelKey { port_id: 100, channel_id: 1 }, end);
    let mut chain_b = MockChain::new(2, 10, 100);
    let result = assert_eventually_channel_upgrade_init::<_, _, _, SideA, SideB>(
        &mut chain_a,
        &mut chain_b,
        &mut runtime,
        DualTagged::new(1),
        DualTagged::new(100),
        &attrs,
    );
    assert_eq!(result.map(|_| ()), Err(RelayError::VersionMismatch));

    // Wrong ordering on side A.
    let mut chain_a = MockChain::new(1, 10, 100);
    let mut end = upgrade_end_a();
    end.ordering = ChannelOrdering::Ordered;
    chain_a.set_channel(ChannelKey { port_id: 100, channel_id: 1 }, end);
    let result = assert_eventually_channel_upgrade_init::<_, _, _, SideA, SideB>(
        &mut chain_a,
        &mut chain_b,
        &mut runtime,
        DualTagged::new(1),
        DualTagged::new(100),
        &attrs,
    );
    assert_eq!(result.map(|_| ()), Err(RelayError::OrderingMismatch));

    // Wrong connection hops on side A.
    let mut chain_a = MockChain::new(1, 10, 100);
    let mut end = upgrade_end_a();
    end.connection_hops = vec![1, 3];
    chain_a.set_channel(ChannelKey { port_id: 100, channel_id: 1 }, end);
    let result = assert_eventually_channel_upgrade_init::<_, _, _, SideA, SideB>(
        &mut chain_a,
        &mut chain_b,
        &mut runtime,
        DualTagged::new(1),
        DualTagged::new(100),
        &attrs,
    );
    assert_eq!(result.map(|_| ()), Err(RelayError::ConnectionHopsMismatch));

    // No counterparty channel recorded on side A.
    let mut chain_a = MockChain::new(1, 10, 100);
    let mut end = upgrade_end_a();
    end.counterparty.channel_id = None;
    chain_a.set_channel(ChannelKey { port_id: 100, channel_id: 1 }, end);
    let result = assert_eventually_channel_upgrade_init::<_, _, _, SideA, SideB>(
        &mut chain_a,
        &mut chain_b,
        &mut runtime,
        DualTagged::new(1),
        DualTagged::new(100),
        &attrs,
    );
    assert_eq!(result.map(|_| ()), Err(RelayError::MissingCounterpartyChannel));
}

#[test]
fn upgradable_attributes_expose_their_parts() {
    let attrs = upgrade_attrs();
    assert_eq!(attrs.version(), 20);
    assert_eq!(attrs.ordering(), ChannelOrdering::Unordered);
    assert_eq!(attrs.connection_hops_a(), &vec![1]);
    assert_eq!(attrs.connection_hops_b(), &vec![2]);
}
