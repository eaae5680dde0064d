use prost::Message;

use relay_engine::errors::RelayError;
use relay_engine::snapshot::{
    format_u64, parse_packet_id, parse_u64, vacuum_threshold, PacketId, KEEP_SNAPSHOTS,
};
use relay_engine::txsearch::packet_search;

#[test]
fn vacuum_threshold_keeps_the_latest_snapshots() {
    assert_eq!(KEEP_SNAPSHOTS, 8);
    assert_eq!(vacuum_threshold(9), Some(1));
    assert_eq!(vacuum_threshold(100), Some(92));
    assert_eq!(vacuum_threshold(8), None);
    assert_eq!(vacuum_threshold(0), None);
}

#[test]
fn format_u64_writes_canonical_decimal() {
    assert_eq!(format_u64(0), b"0".to_vec());
    assert_eq!(format_u64(7), b"7".to_vec());
    assert_eq!(format_u64(1234567), b"1234567".to_vec());
    assert_eq!(format_u64(u64::MAX), b"18446744073709551615".to_vec());
}

#[test]
fn parse_u64_reads_decimal_and_rejects_overflow() {
    assert_eq!(parse_u64(b"0"), Some(0));
    assert_eq!(parse_u64(b"007"), Some(7));
    assert_eq!(parse_u64(b"18446744073709551615"), Some(u64::MAX));
    assert_eq!(parse_u64(b"18446744073709551616"), None);
    assert_eq!(parse_u64(b""), None);
    assert_eq!(parse_u64(b"12a"), None);
}

#[test]
fn packet_id_round_trips_through_its_byte_form() {
    let id = PacketId {
        port_id: b"transfer".to_vec(),
        channel_id: b"channel-0".to_vec(),
        sequence: 5,
    };
    let bytes = id.to_bytes();
    assert_eq!(bytes, b"transfer/channel-0/5".to_vec());
    let back = parse_packet_id(&bytes).expect("the canonical form must parse");
    assert_eq!(back.port_id, b"transfer".to_vec());
    assert_eq!(back.channel_id, b"channel-0".to_vec());
    assert_eq!(back.sequence, 5);
}

#[test]
fn malformed_packet_ids_are_rejected() {
    match parse_packet_id(b"transfer") {
        Err(error) => assert_eq!(error, RelayError::MalformedPacketId),
        Ok(_) => panic!("an identifier without separators must not parse"),
    }
    assert!(parse_packet_id(b"transfer/channel-0").is_err());
    assert!(parse_packet_id(b"transfer/channel-0/").is_err());
    assert!(parse_packet_id(b"transfer/channel-0/abc").is_err());
    assert!(parse_packet_id(b"/channel-0/5").is_err());
    assert!(parse_packet_id(b"transfer/channel-0/5/6").is_err());
}

#[test]
fn packet_search_reports_a_decoded_hit() {
    let raw = tendermint_proto::abci::TxResult {
        height: 42,
        index: 3,
        tx: vec![1u8, 2, 3].into(),
        result: Some(tendermint_proto::abci::ExecTxResult {
            code: 0,
            gas_wanted: 1000,
            gas_used: 900,
            ..Default::default()
        }),
    };
    let bytes = raw.encode_to_vec();
    let outcome = packet_search(Some((b"cafe".to_vec(), bytes))).expect("a stored row decodes");
    assert_eq!(outcome.total_count, 1);
    assert_eq!(outcome.hits.len(), 1);
    assert_eq!(outcome.hits[0].hash, b"cafe".to_vec());
    assert_eq!(outcome.hits[0].height, 42);
    assert_eq!(outcome.hits[0].index, 3);
    assert_eq!(outcome.hits[0].tx, vec![1u8, 2, 3]);
    assert_eq!(outcome.hits[0].outcome.code, 0);
    assert_eq!(outcome.hits[0].outcome.gas_wanted, 1000);
    assert_eq!(outcome.hits[0].outcome.gas_used, 900);
}

#[test]
fn packet_search_without_execution_outcome_fails() {
    let raw = tendermint_proto::abci::TxResult {
        height: 42,
        index: 3,
        tx: vec![].into(),
        result: None,
    };
    let bytes = raw.encode_to_vec();
    assert_eq!(
        packet_search(Some((b"cafe".to_vec(), bytes))).map(|_| ()),
        Err(RelayError::MissingExecResult)
    );
}

#[test]
fn packet_search_rejects_undecodable_bytes() {
    assert_eq!(
        packet_search(Some((b"cafe".to_vec(), vec![0xFFu8, 0xFF, 0xFF]))).map(|_| ()),
        Err(RelayError::MalformedTxResult)
    );
}

#[test]
fn packet_search_without_a_row_reports_not_found() {
    assert_eq!(packet_search(None).map(|_| ()), Err(RelayError::TxNotFound));
}
