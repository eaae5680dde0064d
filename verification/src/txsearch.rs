//! Looking a relayed packet's transaction up in an indexed store: the
//! caller fetches the stored row (transaction hash and protobuf-encoded
//! execution record); this module decodes the record and shapes the
//! search answer.

use vstd::prelude::*;

use prost::Message;

use crate::errors::RelayError;

verus! {

/// Summary of one transaction's execution.
#[derive(Clone, Copy, Debug, PartialEq, Eq, Structural)]
pub struct ExecSummary {
    pub code: u32,
    pub gas_wanted: i64,
    pub gas_used: i64,
}

/// One stored transaction record, as the engine reads it.
pub struct TxRecord {
    pub height: i64,
    pub index: u32,
    pub tx: Vec<u8>,
    pub outcome: Option<ExecSummary>,
}

/// The mathematical reading of a stored transaction record.
pub struct TxRecordView {
    pub height: i64,
    pub index: u32,
    pub tx: Seq<u8>,
    pub outcome: Option<ExecSummary>,
}

impl View for TxRecord {
    type V = TxRecordView;

    open spec fn view(&self) -> TxRecordView {
        TxRecordView {
            height: self.height,
            index: self.index,
            tx: self.tx@,
            outcome: self.outcome,
        }
    }
}

/// What the protobuf decoder makes of a byte string: a function of the
/// bytes alone.
pub uninterp spec fn tx_result_of(bytes: Seq<u8>) -> Option<TxRecordView>;

/// Relies on tendermint_proto's `TxResult` with prost's `Message::decode`:
/// the decoded record, or a decode failure, is a function of the bytes
/// alone.
#[verifier::external_body]
fn decode_tx_result(bytes: &[u8]) -> (r: Result<TxRecord, RelayError>)
    ensures
        r is Ok <==> tx_result_of(bytes@) is Some,
        r is Ok ==> r->Ok_0@ == tx_result_of(bytes@)->0,
        r is Err ==> r->Err_0 == RelayError::MalformedTxResult,
{
    match tendermint_proto::abci::TxResult::decode(bytes) {
        Ok(raw) => {
            let outcome = match raw.result {
                Some(d) => Some(
                    ExecSummary { code: d.code, gas_wanted: d.gas_wanted, gas_used: d.gas_used },
                ),
                None => None,
            };
            Ok(TxRecord { height: raw.height, index: raw.index, tx: raw.tx.to_vec(), outcome })
        },
        Err(_) => Err(RelayError::MalformedTxResult),
    }
}

/// The decoded record and hash for a fetched row, shaped as the search
/// needs them: the row's result bytes decoded, paired with its hash.
pub fn tx_result_by_packet_fields(row: Option<(Vec<u8>, Vec<u8>)>) -> (r: Result<
    (TxRecord, Vec<u8>),
    RelayError,
>)
    ensures
        row is None ==> r == Err::<(TxRecord, Vec<u8>), RelayError>(RelayError::TxNotFound),
        ({
            row matches Some((hash, bytes)) ==> {
                &&& (tx_result_of(bytes@) is None ==> r == Err::<
                    (TxRecord, Vec<u8>),
                    RelayError,
                >(RelayError::MalformedTxResult))
                &&& (tx_result_of(bytes@) matches Some(record) ==> (r matches Ok(found)
                    && found.0@ == record && found.1@ == hash@))
            }
        }),
{
    let (hash, bytes) = match row {
        Some(row) => row,
        None => {
            return Err(RelayError::TxNotFound);
        },
    };
    let record = decode_tx_result(bytes.as_slice())?;
    Ok((record, hash))
}

/// One matching transaction, as the search reports it.
pub struct TxSearchHit {
    pub hash: Vec<u8>,
    pub height: i64,
    pub index: u32,
    pub tx: Vec<u8>,
    pub outcome: ExecSummary,
}

/// The answer to a packet search.
pub struct TxSearchOutcome {
    pub hits: Vec<TxSearchHit>,
    pub total_count: u32,
}

/// Shape the search answer for a packet's fetched row: exactly one hit,
/// carrying the decoded execution outcome. A missing row, an undecodable
/// record, and a record without an execution outcome each fail with their
/// own error.
pub fn packet_search(row: Option<(Vec<u8>, Vec<u8>)>) -> (r: Result<TxSearchOutcome, RelayError>)
    ensures
        row is None ==> r == Err::<TxSearchOutcome, RelayError>(RelayError::TxNotFound),
        ({
            row matches Some((hash, bytes)) ==> {
                &&& (tx_result_of(bytes@) is None ==> r == Err::<TxSearchOutcome, RelayError>(
                    RelayError::MalformedTxResult,
                ))
                &&& (tx_result_of(bytes@) matches Some(record) ==> {
                    if record.outcome is Some {
                        r matches Ok(outcome) && outcome.total_count == 1 && outcome.hits@.len()
                            == 1 && outcome.hits@[0].hash@ == hash@ && outcome.hits@[0].height
                            == record.height && outcome.hits@[0].index == record.index
                            && outcome.hits@[0].tx@ == record.tx && outcome.hits@[0].outcome
                            == record.outcome->0
                    } else {
                        r == Err::<TxSearchOutcome, RelayError>(RelayError::MissingExecResult)
                    }
                })
            }
        }),
{
    let (record, hash) = tx_result_by_packet_fields(row)?;
    let outcome = match record.outcome {
        Some(outcome) => outcome,
        None => {
            return Err(RelayError::MissingExecResult);
        },
    };
    let hit = TxSearchHit { hash, height: record.height, index: record.index, tx: record.tx, outcome };
    let mut hits: Vec<TxSearchHit> = Vec::new();
    hits.push(hit);
    Ok(TxSearchOutcome { hits, total_count: 1 })
}

} // verus!
