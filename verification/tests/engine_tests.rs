use relay_engine::batch::{BatchConfig, BatchRequest, BatchResult, BatchWorkerState, EnqueueOutcome};
use relay_engine::chain::{ChainStatus, ChannelKey, TrackedClient};
use relay_engine::dispatch::submit_batch;
use relay_engine::errors::RelayError;
use relay_engine::message::{ChainEvent, ChannelOrdering, OutgoingMessage, Packet, RelayPath};
use relay_engine::mock::{MockChain, MockRuntime};
use relay_engine::relay::{
    decide_relay_action, packet_timed_out, DispatcherState, PacketRelayDispatcher, RelayAction,
    RelayEvent, TimeoutKind,
};
use relay_engine::update_client::{
    build_update_client_messages, update_client_decision, wait_for_source_height,
    UpdateClientDecision,
};

fn small_config() -> BatchConfig {
    BatchConfig { queue_capacity: 4, max_batch_size: 10, flush_interval_ms: 50 }
}

fn sample_packet(sequence: u64) -> Packet {
    Packet {
        sequence,
        source_port: 1,
        source_channel: 2,
        destination_port: 3,
        destination_channel: 4,
        payload: 99,
        timeout_height: 0,
        timeout_timestamp: 0,
    }
}

fn receive_message(sequence: u64) -> OutgoingMessage {
    OutgoingMessage::ReceivePacket { packet: sample_packet(sequence), proof_height: 10, proof: 7 }
}

#[test]
fn flush_answers_each_request_once_in_order() {
    let mut worker = BatchWorkerState::new(small_config());
    let mut chain = MockChain::new(1, 100, 1000);
    let first = BatchRequest {
        request_id: 11,
        messages: vec![receive_message(1), receive_message(2)],
    };
    let second = BatchRequest { request_id: 22, messages: vec![receive_message(3)] };
    assert!(matches!(worker.try_enqueue(first), EnqueueOutcome::Accepted));
    assert!(matches!(worker.try_enqueue(second), EnqueueOutcome::Accepted));
    let answers = worker.flush(&mut chain);
    assert_eq!(answers.len(), 2);
    assert_eq!(answers[0].0, 11);
    assert_eq!(answers[1].0, 22);
    match &answers[0].1 {
        BatchResult::Success(groups) => {
            assert_eq!(groups.len(), 2);
            assert_eq!(groups[0], vec![ChainEvent::PacketReceived { sequence: 1 }]);
            assert_eq!(groups[1], vec![ChainEvent::PacketReceived { sequence: 2 }]);
        }
        BatchResult::Failure(_) => panic!("first request should succeed"),
    }
    match &answers[1].1 {
        BatchResult::Success(groups) => {
            assert_eq!(groups.len(), 1);
            assert_eq!(groups[0], vec![ChainEvent::PacketReceived { sequence: 3 }]);
        }
        BatchResult::Failure(_) => panic!("second request should succeed"),
    }
    // Both requests rode in one transaction, order preserved end to end.
    assert_eq!(chain.submitted_log.len(), 1);
    assert_eq!(
        chain.submitted_log[0],
        vec![receive_message(1), receive_message(2), receive_message(3)]
    );
}

#[test]
fn failed_flush_gives_every_request_the_same_failure() {
    let mut worker = BatchWorkerState::new(small_config());
    let mut chain = MockChain::new(1, 100, 1000);
    chain.fail_submissions = true;
    let first = BatchRequest { request_id: 5, messages: vec![receive_message(1)] };
    let second = BatchRequest { request_id: 6, messages: vec![receive_message(2)] };
    assert!(matches!(worker.try_enqueue(first), EnqueueOutcome::Accepted));
    assert!(matches!(worker.try_enqueue(second), EnqueueOutcome::Accepted));
    let answers = worker.flush(&mut chain);
    assert_eq!(answers.len(), 2);
    for (_, result) in &answers {
        match result {
            BatchResult::Failure(error) => assert_eq!(*error, RelayError::SubmissionError),
            BatchResult::Success(_) => panic!("an all-or-nothing failure reached a subset"),
        }
    }
    assert_eq!(chain.submitted_log.len(), 0);
}

#[test]
fn empty_flush_submits_nothing() {
    let mut worker = BatchWorkerState::new(small_config());
    let mut chain = MockChain::new(1, 100, 1000);
    let answers = worker.flush(&mut chain);
    assert!(answers.is_empty());
    assert_eq!(chain.submitted_log.len(), 0);
}

#[test]
fn flush_due_counts_pending_messages() {
    let mut worker = BatchWorkerState::new(BatchConfig {
        queue_capacity: 8,
        max_batch_size: 3,
        flush_interval_ms: 50,
    });
    assert!(!worker.flush_due());
    let request = BatchRequest {
        request_id: 1,
        messages: vec![receive_message(1), receive_message(2), receive_message(3)],
    };
    assert!(matches!(worker.try_enqueue(request), EnqueueOutcome::Accepted));
    assert!(worker.flush_due());
}

#[test]
fn closed_worker_fails_new_submissions_without_submitting() {
    let mut worker = BatchWorkerState::new(small_config());
    let mut chain = MockChain::new(1, 100, 1000);
    let outstanding = BatchRequest { request_id: 7, messages: vec![receive_message(1)] };
    assert!(matches!(worker.try_enqueue(outstanding), EnqueueOutcome::Accepted));
    let failed = worker.close();
    assert_eq!(failed.len(), 1);
    assert_eq!(failed[0].0, 7);
    match &failed[0].1 {
        BatchResult::Failure(error) => assert_eq!(*error, RelayError::WorkerClosed),
        BatchResult::Success(_) => panic!("closing must fail outstanding requests"),
    }
    let (own, others) = submit_batch(&mut worker, &mut chain, 8, vec![receive_message(2)]);
    assert_eq!(own, Err(RelayError::WorkerClosed));
    assert!(others.is_empty());
    assert_eq!(chain.submitted_log.len(), 0);
}

#[test]
fn full_queue_flushes_earlier_requests_first() {
    let mut worker = BatchWorkerState::new(BatchConfig {
        queue_capacity: 1,
        max_batch_size: 10,
        flush_interval_ms: 50,
    });
    let mut chain = MockChain::new(1, 100, 1000);
    let earlier = BatchRequest { request_id: 1, messages: vec![receive_message(1)] };
    assert!(matches!(worker.try_enqueue(earlier), EnqueueOutcome::Accepted));
    let (own, others) = submit_batch(&mut worker, &mut chain, 2, vec![receive_message(2)]);
    assert!(own.is_ok());
    assert_eq!(others.len(), 1);
    assert_eq!(others[0].0, 1);
    // Two transactions: the backpressure flush, then our own.
    assert_eq!(chain.submitted_log.len(), 2);
    assert_eq!(chain.submitted_log[0], vec![receive_message(1)]);
    assert_eq!(chain.submitted_log[1], vec![receive_message(2)]);
}

#[test]
fn skip_policy_builds_no_update_for_trusted_height() {
    assert!(matches!(update_client_decision(50, 50), UpdateClientDecision::Skip));
    assert!(matches!(update_client_decision(51, 50), UpdateClientDecision::Skip));
    assert!(matches!(update_client_decision(49, 50), UpdateClientDecision::Build));
    let mut source = MockChain::new(1, 100, 1000);
    let destination = {
        let mut chain = MockChain::new(2, 80, 800);
        chain.set_client(9, TrackedClient { trusted_height: 120, frozen: false, expired: false });
        chain
    };
    let mut runtime = MockRuntime::new();
    let messages =
        build_update_client_messages(&mut source, &destination, &mut runtime, 9, 100, 5, 10)
            .expect("skip must succeed");
    assert!(messages.is_empty());
}

#[test]
fn update_is_built_when_trusted_height_lags() {
    let mut source = MockChain::new(1, 100, 1000);
    let destination = {
        let mut chain = MockChain::new(2, 80, 800);
        chain.set_client(9, TrackedClient { trusted_height: 60, frozen: false, expired: false });
        chain
    };
    let mut runtime = MockRuntime::new();
    let messages =
        build_update_client_messages(&mut source, &destination, &mut runtime, 9, 100, 5, 10)
            .expect("build must succeed");
    assert_eq!(
        messages,
        vec![OutgoingMessage::UpdateClient { client_id: 9, target_height: 100, header: 100 }]
    );
}

#[test]
fn frozen_and_expired_clients_are_fatal() {
    let mut source = MockChain::new(1, 100, 1000);
    let mut runtime = MockRuntime::new();
    let frozen = {
        let mut chain = MockChain::new(2, 80, 800);
        chain.set_client(9, TrackedClient { trusted_height: 60, frozen: true, expired: false });
        chain
    };
    assert_eq!(
        build_update_client_messages(&mut source, &frozen, &mut runtime, 9, 100, 5, 10),
        Err(RelayError::ClientFrozen)
    );
    let expired = {
        let mut chain = MockChain::new(2, 80, 800);
        chain.set_client(9, TrackedClient { trusted_height: 60, frozen: false, expired: true });
        chain
    };
    assert_eq!(
        build_update_client_messages(&mut source, &expired, &mut runtime, 9, 100, 5, 10),
        Err(RelayError::ClientExpired)
    );
    let unknown = MockChain::new(2, 80, 800);
    assert_eq!(
        build_update_client_messages(&mut source, &unknown, &mut runtime, 9, 100, 5, 10),
        Err(RelayError::QueryError)
    );
}

#[test]
fn wait_policy_proceeds_once_source_reaches_target() {
    let mut source = MockChain::new(1, 95, 1000);
    source.height_step = 2;
    let mut runtime = MockRuntime::new();
    let status = wait_for_source_height(&mut source, &mut runtime, 100, 10, 10)
        .expect("the source reaches the target within the bound");
    assert!(status.height >= 100);
    // Three polls see 97, 99, 101; two pauses in between.
    assert_eq!(status.height, 101);
    assert_eq!(runtime.slept_ms, 20);
}

#[test]
fn wait_policy_times_out_with_consensus_not_ready() {
    let mut source = MockChain::new(1, 95, 1000);
    let mut runtime = MockRuntime::new();
    let result = wait_for_source_height(&mut source, &mut runtime, 100, 4, 10);
    assert_eq!(result, Err(RelayError::ConsensusNotReady));
    assert_eq!(runtime.slept_ms, 40);
}

#[test]
fn timed_out_packet_is_detected_by_height_or_timestamp() {
    let status = ChainStatus { height: 100, timestamp: 5000 };
    let mut packet = sample_packet(1);
    assert!(!packet_timed_out(&status, &packet));
    packet.timeout_height = 100;
    assert!(packet_timed_out(&status, &packet));
    packet.timeout_height = 101;
    assert!(!packet_timed_out(&status, &packet));
    packet.timeout_timestamp = 5000;
    assert!(packet_timed_out(&status, &packet));
}

#[test]
fn send_packet_past_timeout_becomes_timeout_action() {
    let status = ChainStatus { height: 100, timestamp: 5000 };
    let mut packet = sample_packet(1);
    packet.timeout_height = 90;
    let event = RelayEvent::SendPacket { packet };
    let action = decide_relay_action(&event, &status, ChannelOrdering::Unordered, false);
    assert_eq!(action, RelayAction::RelayTimeout { packet, kind: TimeoutKind::Unordered });
    let ordered = decide_relay_action(&event, &status, ChannelOrdering::Ordered, false);
    assert_eq!(ordered, RelayAction::RelayTimeout { packet, kind: TimeoutKind::Ordered });
    let closed = decide_relay_action(&event, &status, ChannelOrdering::Ordered, true);
    assert_eq!(closed, RelayAction::RelayTimeout { packet, kind: TimeoutKind::ChannelClosed });
}

#[test]
fn fresh_send_packet_becomes_receive_action() {
    let status = ChainStatus { height: 100, timestamp: 5000 };
    let mut packet = sample_packet(1);
    packet.timeout_height = 200;
    let event = RelayEvent::SendPacket { packet };
    let action = decide_relay_action(&event, &status, ChannelOrdering::Unordered, false);
    assert_eq!(action, RelayAction::RelayReceive { packet });
}

fn sample_path() -> RelayPath {
    RelayPath {
        source_chain: 1,
        destination_chain: 2,
        source_port: 1,
        source_channel: 2,
        destination_port: 3,
        destination_channel: 4,
        destination_client: 9,
        source_client: 8,
    }
}

#[test]
fn dispatcher_routes_timeout_to_source_chain() {
    let mut source = MockChain::new(1, 100, 1000);
    source.set_client(8, TrackedClient { trusted_height: 600, frozen: false, expired: false });
    let mut destination = MockChain::new(2, 500, 9000);
    destination.set_client(9, TrackedClient { trusted_height: 400, frozen: false, expired: false });
    let mut dispatcher = PacketRelayDispatcher::new(
        sample_path(),
        ChannelOrdering::Unordered,
        source,
        destination,
        MockRuntime::new(),
        small_config(),
        5,
        10,
    );
    let mut packet = sample_packet(5);
    packet.timeout_height = 450;  // the destination is already past it
    dispatcher
        .relay_event(&RelayEvent::SendPacket { packet })
        .expect("timeout relay must succeed");
    assert!(matches!(dispatcher.state, DispatcherState::Done));
    // The timeout went to the source chain, nothing to the destination.
    assert_eq!(dispatcher.destination.submitted_log.len(), 0);
    assert_eq!(dispatcher.source.submitted_log.len(), 1);
    let transaction = &dispatcher.source.submitted_log[0];
    match transaction.last().expect("one message") {
        OutgoingMessage::TimeoutUnorderedPacket { packet: relayed, .. } => {
            assert_eq!(relayed.sequence, 5);
        }
        other => panic!("expected an unordered timeout message, got {:?}", other),
    }
}

#[test]
fn dispatcher_relays_acknowledgement_to_source_chain() {
    let mut source = MockChain::new(1, 100, 1000);
    source.set_client(8, TrackedClient { trusted_height: 600, frozen: false, expired: false });
    let mut destination = MockChain::new(2, 500, 9000);
    destination.set_client(9, TrackedClient { trusted_height: 400, frozen: false, expired: false });
    let mut dispatcher = PacketRelayDispatcher::new(
        sample_path(),
        ChannelOrdering::Unordered,
        source,
        destination,
        MockRuntime::new(),
        small_config(),
        5,
        10,
    );
    let packet = sample_packet(6);
    dispatcher
        .relay_event(&RelayEvent::WriteAcknowledgement { packet, acknowledgement: 77 })
        .expect("ack relay must succeed");
    assert!(matches!(dispatcher.state, DispatcherState::Done));
    assert_eq!(dispatcher.source.submitted_log.len(), 1);
    match dispatcher.source.submitted_log[0].last().expect("one message") {
        OutgoingMessage::AckPacket { packet: relayed, acknowledgement, .. } => {
            assert_eq!(relayed.sequence, 6);
            assert_eq!(*acknowledgement, 77);
        }
        other => panic!("expected an acknowledgement message, got {:?}", other),
    }
}

#[test]
fn dispatcher_times_out_on_closed_destination_channel() {
    let mut source = MockChain::new(1, 100, 1000);
    source.set_client(8, TrackedClient { trusted_height: 600, frozen: false, expired: false });
    let mut destination = MockChain::new(2, 500, 9000);
    destination.set_client(9, TrackedClient { trusted_height: 400, frozen: false, expired: false });
    destination.close_channel(ChannelKey { port_id: 3, channel_id: 4 });
    let mut dispatcher = PacketRelayDispatcher::new(
        sample_path(),
        ChannelOrdering::Unordered,
        source,
        destination,
        MockRuntime::new(),
        small_config(),
        5,
        10,
    );
    let packet = sample_packet(7);
    dispatcher
        .relay_event(&RelayEvent::ChannelClosed { packet })
        .expect("closed-channel relay must succeed");
    assert!(matches!(
        dispatcher.source.submitted_log[0].last(),
        Some(OutgoingMessage::TimeoutChannelClosed { .. })
    ));
}

#[test]
fn end_to_end_update_and_receive_in_one_batch() {
    // Two chains; a send-packet event on A with sequence 5 and a timeout
    // far in the future; B's client for A trusts less than the proof
    // height.
    let mut chain_a = MockChain::new(1, 100, 1000);
    chain_a.set_client(8, TrackedClient { trusted_height: 600, frozen: false, expired: false });
    let mut chain_b = MockChain::new(2, 500, 9000);
    chain_b.set_client(9, TrackedClient { trusted_height: 60, frozen: false, expired: false });
    let mut dispatcher = PacketRelayDispatcher::new(
        sample_path(),
        ChannelOrdering::Unordered,
        chain_a,
        chain_b,
        MockRuntime::new(),
        small_config(),
        5,
        10,
    );
    let mut packet = sample_packet(5);
    packet.timeout_height = 1_000_000;
    dispatcher
        .relay_event(&RelayEvent::SendPacket { packet })
        .expect("the relay pass must succeed");
    assert!(matches!(dispatcher.state, DispatcherState::Done));
    // One two-message transaction on B: the client update first, then the
    // receive message it backs; nothing on A.
    assert_eq!(dispatcher.source.submitted_log.len(), 0);
    assert_eq!(dispatcher.destination.submitted_log.len(), 1);
    let transaction = &dispatcher.destination.submitted_log[0];
    assert_eq!(transaction.len(), 2);
    match &transaction[0] {
        OutgoingMessage::UpdateClient { client_id, target_height, .. } => {
            assert_eq!(*client_id, 9);
            assert_eq!(*target_height, 100);
        }
        other => panic!("expected the update message first, got {:?}", other),
    }
    match &transaction[1] {
        OutgoingMessage::ReceivePacket { packet: relayed, proof_height, .. } => {
            assert_eq!(relayed.sequence, 5);
            assert_eq!(*proof_height, 100);
        }
        other => panic!("expected the receive message second, got {:?}", other),
    }
}

#[test]
fn dispatcher_fails_when_submission_fails() {
    let mut source = MockChain::new(1, 100, 1000);
    source.set_client(8, TrackedClient { trusted_height: 600, frozen: false, expired: false });
    let mut destination = MockChain::new(2, 500, 9000);
    destination.set_client(9, TrackedClient { trusted_height: 600, frozen: false, expired: false });
    destination.fail_submissions = true;
    let mut dispatcher = PacketRelayDispatcher::new(
        sample_path(),
        ChannelOrdering::Unordered,
        source,
        destination,
        MockRuntime::new(),
        small_config(),
        5,
        10,
    );
    let mut packet = sample_packet(5);
    packet.timeout_height = 1_000_000;
    let result = dispatcher.relay_event(&RelayEvent::SendPacket { packet });
    assert_eq!(result, Err(RelayError::SubmissionError));
    assert!(matches!(dispatcher.state, DispatcherState::Failed));
}

#[test]
fn later_client_entry_wins_for_the_same_identifier() {
    let mut destination = MockChain::new(2, 80, 800);
    destination.set_client(9, TrackedClient { trusted_height: 10, frozen: false, expired: false });
    destination.set_client(9, TrackedClient { trusted_height: 120, frozen: false, expired: false });
    let mut source = MockChain::new(1, 100, 1000);
    let mut runtime = MockRuntime::new();
    let messages =
        build_update_client_messages(&mut source, &destination, &mut runtime, 9, 100, 5, 10)
            .expect("the overwritten client skips the update");
    assert!(messages.is_empty());
}

#[test]
fn dispatcher_submit_batch_serves_handshake_messages() {
    let mut source = MockChain::new(1, 100, 1000);
    source.set_client(8, TrackedClient { trusted_height: 600, frozen: false, expired: false });
    let mut destination = MockChain::new(2, 500, 9000);
    destination.set_client(9, TrackedClient { trusted_height: 600, frozen: false, expired: false });
    let mut dispatcher = PacketRelayDispatcher::new(
        sample_path(),
        ChannelOrdering::Unordered,
        source,
        destination,
        MockRuntime::new(),
        small_config(),
        5,
        10,
    );
    let groups = dispatcher
        .submit_batch(1, 100, vec![receive_message(9)])
        .expect("a direct batch submission succeeds");
    assert_eq!(groups.len(), 1);
    assert_eq!(dispatcher.destination.submitted_log.len(), 1);
    // The destination already trusts the target height: no update rode along.
    assert_eq!(dispatcher.destination.submitted_log[0], vec![receive_message(9)]);
    // Shutting the worker down refuses any further submission at once.
    let refused = dispatcher.destination_worker.close();
    assert!(refused.is_empty());
    assert_eq!(
        dispatcher.submit_batch(2, 100, vec![receive_message(10)]),
        Err(RelayError::WorkerClosed)
    );
    assert_eq!(dispatcher.destination.submitted_log.len(), 1);
}

#[test]
fn dispatcher_submit_batch_prepends_an_update_for_a_lagging_client() {
    let mut source = MockChain::new(1, 100, 1000);
    source.set_client(8, TrackedClient { trusted_height: 600, frozen: false, expired: false });
    let mut destination = MockChain::new(2, 500, 9000);
    destination.set_client(9, TrackedClient { trusted_height: 40, frozen: false, expired: false });
    let mut dispatcher = PacketRelayDispatcher::new(
        sample_path(),
        ChannelOrdering::Unordered,
        source,
        destination,
        MockRuntime::new(),
        small_config(),
        5,
        10,
    );
    let groups = dispatcher
        .submit_batch(3, 100, vec![receive_message(11)])
        .expect("the update is built and the batch submitted");
    // Only the payload's own event group is handed back.
    assert_eq!(groups.len(), 1);
    assert_eq!(dispatcher.destination.submitted_log.len(), 1);
    assert_eq!(
        dispatcher.destination.submitted_log[0],
        vec![
            OutgoingMessage::UpdateClient { client_id: 9, target_height: 100, header: 100 },
            receive_message(11)
        ]
    );
}
