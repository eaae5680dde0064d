//! The dispatch pipeline: route one caller's message group through the
//! destination chain's batching worker, prepending whatever update-client
//! messages the destination's client is owed first.

use vstd::prelude::*;

use crate::batch::{
    concat_batch_messages, BatchRequest, BatchResult, BatchWorkerState, EnqueueOutcome,
};
use crate::chain::{
    ChainStatusQuerier, ClientReader, MessageSubmitter, ProofQuerier, same_except_status, same_except_submitted,
};
use crate::errors::RelayError;
use crate::message::{ChainEvent, OutgoingMessage};
use crate::runtime::RelayRuntime;
use crate::update_client::build_update_client_messages;

verus! {

/// Submit one message group through the worker as a single request and
/// drive one flush cycle at once, so the group rides in exactly one
/// transaction, coalesced with whatever was already queued.
///
/// Returns this request's own result, together with the answers owed to
/// every other request drained by the same cycle, for the driver to
/// deliver. A closed worker refuses the request at once, without touching
/// the destination chain.
pub fn submit_batch<D: MessageSubmitter>(
    worker: &mut BatchWorkerState,
    destination: &mut D,
    request_id: u64,
    messages: Vec<OutgoingMessage>,
) -> (r: (Result<Vec<Vec<ChainEvent>>, RelayError>, Vec<(u64, BatchResult)>))
    requires
        old(worker).config.queue_capacity >= 1,
    ensures
        final(worker).closed == old(worker).closed,
        final(worker).config == old(worker).config,
        final(worker).queue@.len() == 0 || old(worker).closed,
        old(worker).closed ==> r.0 == Err::<Vec<Vec<ChainEvent>>, RelayError>(
            RelayError::WorkerClosed,
        ) && r.1@.len() == 0 && final(destination).model() == old(destination).model() && final(worker).queue@ == old(worker).queue@,
        !old(worker).closed && old(worker).queue@.len() == 0 ==> r.1@.len() == 0 && {
            ||| (r.0 matches Ok(groups) && groups@.len() == messages@.len() && final(destination).model().submitted == old(destination).model().submitted.push(messages@)
                && same_except_submitted(old(destination).model(), final(destination).model()))
            ||| (r.0 == Err::<Vec<Vec<ChainEvent>>, RelayError>(RelayError::SubmissionError)
                && final(destination).model() == old(destination).model())
        },
        !old(worker).closed ==> (r.0 is Ok ==> r.0->Ok_0@.len() == messages@.len()),
        !old(worker).closed ==> (r.0 is Err ==> r.0->Err_0 == RelayError::SubmissionError),
        !old(worker).closed ==> r.1@.len() == old(worker).queue@.len() && (forall|i: int|
            0 <= i < r.1@.len() ==> (#[trigger] r.1@[i]).0 == old(worker).queue@[i].request_id),
        final(destination).model().clients == old(destination).model().clients,
        final(destination).model().status == old(destination).model().status,
        final(destination).model().closed_channels == old(destination).model().closed_channels,
{
    if worker.closed {
        return (Err(RelayError::WorkerClosed), Vec::new());
    }
    let ghost queue_at_entry = worker.queue@;
    let mut earlier: Vec<(u64, BatchResult)> = Vec::new();
    let request = BatchRequest { request_id, messages };
    let request = match worker.try_enqueue(request) {
        EnqueueOutcome::Accepted => None,
        EnqueueOutcome::Full(handed_back) => Some(handed_back),
        EnqueueOutcome::Closed(_) => unreached(),  // the worker is open
    };
    if let Some(handed_back) = request {
        // Backpressure: the queue is at capacity, so this caller waits for
        // a flush of the earlier requests before its own is accepted.
        earlier = worker.flush(destination);
        match worker.try_enqueue(handed_back) {
            EnqueueOutcome::Accepted => (),
            EnqueueOutcome::Full(_) | EnqueueOutcome::Closed(_) => {
                // the queue was just drained and the worker is open
                return unreached();
            },
        }
    }
    let ghost drained = worker.queue@;
    proof {
        if queue_at_entry.len() == 0 {
            assert(drained.drop_last() =~= Seq::<BatchRequest>::empty());
            assert(concat_batch_messages(drained.drop_last()) =~= Seq::<OutgoingMessage>::empty());
            assert(concat_batch_messages(drained) =~= drained.last().messages@);
        }
    }
    let mut answers = worker.flush(destination);
    proof {
        assert(drained.len() > 0);
        assert(drained[drained.len() - 1].request_id == request_id);
    }
    let own = match answers.pop() {
        Some(last) => last,
        None => {
            return unreached();  // one answer per drained request
        },
    };
    let own_result = match own.1 {
        BatchResult::Success(groups) => Ok(groups),
        BatchResult::Failure(error) => Err(error),
    };
    // The answers owed to the requests that were already queued: those the
    // backpressure flush produced, then those drained together with ours.
    let mut others = earlier;
    others.append(&mut answers);
    (own_result, others)
}

/// One pass of the dispatch pipeline: decide what update-client messages
/// the destination's client is owed, prepend them to the payload, ride
/// the whole group in one transaction through the batching worker, and
/// hand back the payload's own event groups — the update's events are
/// discarded from the caller-visible result, though its failure is not.
///
/// Exactly one transaction is submitted per successful call; when the
/// skip policy applies it carries the payload alone.
pub fn send_messages_with_update<S, D, R>(
    source: &mut S,
    destination: &mut D,
    runtime: &mut R,
    worker: &mut BatchWorkerState,
    request_id: u64,
    client_id: u64,
    target_height: u64,
    payload: Vec<OutgoingMessage>,
    max_polls: usize,
    poll_interval_ms: u64,
) -> (r: (Result<Vec<Vec<ChainEvent>>, RelayError>, Vec<(u64, BatchResult)>)) where
    S: ChainStatusQuerier + ProofQuerier,
    D: ClientReader + MessageSubmitter,
    R: RelayRuntime,

    requires
        old(worker).config.queue_capacity >= 1,
    ensures
        final(worker).closed == old(worker).closed,
        final(worker).config == old(worker).config,
        old(worker).queue@.len() == 0 ==> final(worker).queue@.len() == 0,
        old(worker).closed ==> r.0 == Err::<Vec<Vec<ChainEvent>>, RelayError>(
            RelayError::WorkerClosed,
        ) && r.1@.len() == 0 && final(destination).model() == old(destination).model() && final(source).model() == old(source).model(),
        !old(worker).closed ==> same_except_status(old(source).model(), final(source).model()),
        !old(worker).closed ==> old(source).model().status.le(final(source).model().status),
        final(destination).model().clients == old(destination).model().clients,
        final(destination).model().closed_channels == old(destination).model().closed_channels,
        final(destination).model().status == old(destination).model().status,
        !old(worker).closed && !old(destination).model().clients.contains_key(client_id) ==> r.0
            == Err::<Vec<Vec<ChainEvent>>, RelayError>(RelayError::QueryError),
        r.0 is Ok ==> r.0->Ok_0@.len() == payload@.len(),
        r.0 is Err ==> (r.0->Err_0 == RelayError::WorkerClosed || r.0->Err_0
            == RelayError::QueryError || r.0->Err_0 == RelayError::ClientFrozen || r.0->Err_0
            == RelayError::ClientExpired || r.0->Err_0 == RelayError::ConsensusNotReady
            || r.0->Err_0 == RelayError::SubmissionError),
        !old(worker).closed ==> (r.0 is Err ==> r.0->Err_0 != RelayError::WorkerClosed),
        ({
            // A failed call never leaves anything of this payload behind:
            // before a submission every error returns early, and a failed
            // submission leaves the destination unchanged.
            !old(worker).closed && old(worker).queue@.len() == 0 && r.0 is Err ==> final(destination).model().submitted == old(destination).model().submitted
        }),
        ({
            // Once the skip policy applies, nothing before the submission
            // itself can fail.
            let clients = old(destination).model().clients;
            !old(worker).closed && clients.contains_key(client_id)
                && clients[client_id].trusted_height >= target_height ==> (r.0 is Err ==> r.0->Err_0
                == RelayError::SubmissionError)
        }),
        ({
            // A successful send on a lagging client saw the source reach
            // the target height before the header was built.
            let clients = old(destination).model().clients;
            !old(worker).closed && r.0 is Ok && clients.contains_key(client_id)
                && clients[client_id].trusted_height < target_height ==> final(source).model().status.height >= target_height
        }),
        ({
            let clients = old(destination).model().clients;
            !old(worker).closed && old(worker).queue@.len() == 0 && r.0 is Ok
                && clients.contains_key(client_id) && clients[client_id].trusted_height
                >= target_height ==> final(destination).model().submitted == old(destination).model().submitted.push(payload@)
        }),
        ({
            let clients = old(destination).model().clients;
            !old(worker).closed && old(worker).queue@.len() == 0 && r.0 is Ok
                && clients.contains_key(client_id) && clients[client_id].trusted_height
                < target_height ==> exists|update: OutgoingMessage|
                {
                    &&& (update matches OutgoingMessage::UpdateClient {
                        client_id: c,
                        target_height: t,
                        ..
                    } && c == client_id && t == target_height)
                    &&& final(destination).model().submitted == old(destination).model().submitted.push(seq![update] + payload@)
                }
        }),
{
    if worker.closed {
        return (Err(RelayError::WorkerClosed), Vec::new());
    }
    let updates = match build_update_client_messages(
        source,
        destination,
        runtime,
        client_id,
        target_height,
        max_polls,
        poll_interval_ms,
    ) {
        Ok(u) => u,
        Err(error) => {
            return (Err(error), Vec::new());
        },
    };
    let ghost updates_view = updates@;
    let ghost payload_view = payload@;
    let update_count = updates.len();
    let mut combined = updates;
    let mut trailing = payload;
    combined.append(&mut trailing);
    proof {
        if updates_view.len() == 0 {
            assert(combined@ =~= payload_view);
        } else {
            assert(combined@ =~= seq![updates_view[0]] + payload_view);
        }
    }
    let (own, others) = submit_batch(worker, destination, request_id, combined);
    match own {
        Ok(mut groups) => {
            let payload_groups = groups.split_off(update_count);
            (Ok(payload_groups), others)
        },
        Err(error) => (Err(error), others),
    }
}

} // verus!
