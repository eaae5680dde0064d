//! Per-destination-chain batching: coalesce concurrently submitted message
//! groups into one transaction and fan the per-message event groups back to
//! each submitter.
//!
//! The worker's decisions are a sequential state machine here; a driver
//! (an async task, or a test) owns the loop: it accepts requests with
//! [`BatchWorkerState::try_enqueue`], and on a flush trigger calls
//! [`BatchWorkerState::flush`] with the destination chain, then delivers
//! each `(request id, result)` pair to the submitter it belongs to.

use vstd::prelude::*;

use crate::chain::MessageSubmitter;
use crate::errors::RelayError;
use crate::message::{ChainEvent, OutgoingMessage};

verus! {

/// One caller's submission: an ordered message sequence, identified by the
/// token under which the caller awaits its single result.
pub struct BatchRequest {
    pub request_id: u64,
    pub messages: Vec<OutgoingMessage>,
}

/// The one answer a request receives: per-message event groups in message
/// order, or the failure of the whole transaction.
pub enum BatchResult {
    Success(Vec<Vec<ChainEvent>>),
    Failure(RelayError),
}

/// Batching thresholds, set at construction.
#[derive(Clone, Copy, Debug, PartialEq, Eq, Structural)]
pub struct BatchConfig {
    /// Requests held at once before enqueueing callers must wait.
    pub queue_capacity: usize,
    /// Pending message count at which a flush is due at once.
    pub max_batch_size: usize,
    /// Milliseconds between periodic flushes; used by the driver loop.
    pub flush_interval_ms: u64,
}

/// What the driver should do with an enqueue attempt.
pub enum EnqueueOutcome {
    /// The request is queued and will be answered by a later flush.
    Accepted,
    /// The queue is at capacity; the caller must wait for a flush.
    Full(BatchRequest),
    /// The worker is shut down; the request fails at once.
    Closed(BatchRequest),
}

/// The decision state of one destination chain's batching worker: the
/// requests drained together at the next flush, and whether the worker
/// has been shut down.
pub struct BatchWorkerState {
    pub queue: Vec<BatchRequest>,
    pub closed: bool,
    pub config: BatchConfig,
}

/// Total number of messages across a request sequence.
pub open spec fn batch_message_count(reqs: Seq<BatchRequest>) -> int
    decreases reqs.len(),
{
    if reqs.len() == 0 {
        0
    } else {
        batch_message_count(reqs.drop_last()) + reqs.last().messages@.len()
    }
}

/// Where a request's slice starts in the concatenated transaction.
pub open spec fn batch_offset(reqs: Seq<BatchRequest>, i: int) -> int {
    batch_message_count(reqs.take(i))
}

/// The single transaction a drained request sequence becomes: every
/// request's messages, in request order, each in its own order.
pub open spec fn concat_batch_messages(reqs: Seq<BatchRequest>) -> Seq<OutgoingMessage>
    decreases reqs.len(),
{
    if reqs.len() == 0 {
        Seq::empty()
    } else {
        concat_batch_messages(reqs.drop_last()) + reqs.last().messages@
    }
}

pub proof fn lemma_message_count_nonneg(reqs: Seq<BatchRequest>)
    ensures
        batch_message_count(reqs) >= 0,
    decreases reqs.len(),
{
    if reqs.len() > 0 {
        lemma_message_count_nonneg(reqs.drop_last());
    }
}

pub proof fn lemma_concat_len(reqs: Seq<BatchRequest>)
    ensures
        concat_batch_messages(reqs).len() == batch_message_count(reqs),
    decreases reqs.len(),
{
    if reqs.len() > 0 {
        lemma_concat_len(reqs.drop_last());
    }
}

/// Taking one more request extends the counted prefix by that request's
/// message count.
pub proof fn lemma_offset_step(reqs: Seq<BatchRequest>, i: int)
    requires
        0 <= i < reqs.len(),
    ensures
        batch_offset(reqs, i + 1) == batch_offset(reqs, i) + reqs[i].messages@.len(),
{
    assert(reqs.take(i + 1).drop_last() =~= reqs.take(i));
    assert(reqs.take(i + 1).last() == reqs[i]);
}

/// Every request's slice lies inside the concatenated transaction.
pub proof fn lemma_offset_in_range(reqs: Seq<BatchRequest>, i: int)
    requires
        0 <= i <= reqs.len(),
    ensures
        0 <= batch_offset(reqs, i),
        batch_offset(reqs, i) + batch_message_count(reqs.skip(i)) == batch_message_count(reqs),
    decreases reqs.len() - i,
{
    lemma_message_count_nonneg(reqs.take(i));
    if i == reqs.len() {
        assert(reqs.take(i) =~= reqs);
        assert(reqs.skip(i) =~= Seq::<BatchRequest>::empty());
    } else {
        lemma_offset_in_range(reqs, i + 1);
        lemma_offset_step(reqs, i);
        assert(reqs.skip(i).drop_first() =~= reqs.skip(i + 1));
        lemma_count_first(reqs.skip(i));
    }
}

/// Peeling the first request off the count.
proof fn lemma_count_first(reqs: Seq<BatchRequest>)
    requires
        reqs.len() > 0,
    ensures
        batch_message_count(reqs) == reqs.first().messages@.len() + batch_message_count(
            reqs.drop_first(),
        ),
    decreases reqs.len(),
{
    if reqs.len() == 1 {
        assert(reqs.drop_last() =~= Seq::<BatchRequest>::empty());
        assert(reqs.drop_first() =~= Seq::<BatchRequest>::empty());
    } else {
        lemma_count_first(reqs.drop_last());
        assert(reqs.drop_last().first() == reqs.first());
        assert(reqs.drop_first().drop_last() =~= reqs.drop_last().drop_first());
        assert(reqs.drop_first().last() == reqs.last());
    }
}

/// Order preservation through coalescing: the `j`-th message of the `i`-th
/// drained request stands at position `offset(i) + j` of the concatenated
/// transaction, so neither requests nor the messages within one are
/// reordered by batching.
pub proof fn lemma_batch_concat_preserves_order(reqs: Seq<BatchRequest>, i: int, j: int)
    requires
        0 <= i < reqs.len(),
        0 <= j < reqs[i].messages@.len(),
    ensures
        0 <= batch_offset(reqs, i) + j < concat_batch_messages(reqs).len(),
        concat_batch_messages(reqs)[batch_offset(reqs, i) + j] == reqs[i].messages@[j],
    decreases reqs.len(),
{
    lemma_concat_len(reqs);
    lemma_message_count_nonneg(reqs.take(i));
    lemma_offset_in_range(reqs, i + 1);
    lemma_offset_step(reqs, i);
    lemma_message_count_nonneg(reqs.skip(i + 1));
    if i == reqs.len() - 1 {
        assert(reqs.take(i) =~= reqs.drop_last());
        lemma_concat_len(reqs.drop_last());
        assert(concat_batch_messages(reqs)[batch_offset(reqs, i) + j] == reqs[i].messages@[j]);
    } else {
        lemma_batch_concat_preserves_order(reqs.drop_last(), i, j);
        assert(reqs.drop_last().take(i) =~= reqs.take(i));
        assert(reqs.drop_last()[i] == reqs[i]);
        lemma_concat_len(reqs.drop_last());
        lemma_offset_in_range(reqs.drop_last(), i + 1);
        assert(reqs.drop_last().take(i + 1) =~= reqs.take(i + 1));
        lemma_message_count_nonneg(reqs.drop_last().skip(i + 1));
    }
}

/// Copy of a vector of copyable items, by value.
fn copy_items<T: Copy>(v: &Vec<T>) -> (r: Vec<T>)
    ensures
        r@ == v@,
{
    let mut r: Vec<T> = Vec::new();
    let mut i: usize = 0;
    while i < v.len()
        invariant
            i <= v.len(),
            r@ == v@.take(i as int),
        decreases v.len() - i,
    {
        r.push(v[i]);
        i = i + 1;
        assert(v@.take(i as int) =~= v@.take(i - 1).push(v@[i - 1]));
    }
    assert(v@.take(v.len() as int) =~= v@);
    r
}

/// The concatenated transaction for a drained request sequence, in
/// request order.
pub fn concat_requests(reqs: &Vec<BatchRequest>) -> (r: Vec<OutgoingMessage>)
    ensures
        r@ == concat_batch_messages(reqs@),
{
    let mut r: Vec<OutgoingMessage> = Vec::new();
    let mut i: usize = 0;
    while i < reqs.len()
        invariant
            i <= reqs.len(),
            r@ == concat_batch_messages(reqs@.take(i as int)),
        decreases reqs.len() - i,
    {
        let mut j: usize = 0;
        let n = reqs[i].messages.len();
        while j < n
            invariant
                j <= n,
                i < reqs.len(),
                n == reqs@[i as int].messages@.len(),
                r@ == concat_batch_messages(reqs@.take(i as int)) + reqs@[
                    i as int
                ].messages@.take(j as int),
            decreases n - j,
        {
            r.push(reqs[i].messages[j]);
            j = j + 1;
            assert(reqs@[i as int].messages@.take(j as int) =~= reqs@[i as int].messages@.take(
                j - 1,
            ).push(reqs@[i as int].messages@[j - 1]));
        }
        i = i + 1;
        proof {
            assert(reqs@.take(i as int).drop_last() =~= reqs@.take(i - 1));
            assert(reqs@[i - 1].messages@.take(n as int) =~= reqs@[i - 1].messages@);
        }
    }
    assert(reqs@.take(reqs.len() as int) =~= reqs@);
    r
}

/// On a successful transaction, re-slice the returned event groups along
/// the remembered request boundaries: the `i`-th drained request is
/// answered with exactly its own messages' event groups, in its own
/// message order.
pub fn distribute_success(reqs: &Vec<BatchRequest>, events: &Vec<Vec<ChainEvent>>) -> (out: Vec<
    (u64, BatchResult),
>)
    requires
        events@.len() == batch_message_count(reqs@),
    ensures
        out@.len() == reqs@.len(),
        forall|i: int|
            0 <= i < out@.len() ==> (#[trigger] out@[i]).0 == reqs@[i].request_id,
        forall|i: int|
            0 <= i < out@.len() ==> ((#[trigger] out@[i]).1 matches BatchResult::Success(g)
                && g@.len() == reqs@[i].messages@.len() && (forall|j: int|
                0 <= j < g@.len() ==> (#[trigger] g@[j])@ == events@[batch_offset(reqs@, i)
                    + j]@)),
{
    let ne: usize = events.len();
    let mut out: Vec<(u64, BatchResult)> = Vec::new();
    let mut k: usize = 0;
    let mut i: usize = 0;
    proof {
        assert(reqs@.take(0) =~= Seq::<BatchRequest>::empty());
    }
    while i < reqs.len()
        invariant
            i <= reqs.len(),
            events@.len() == batch_message_count(reqs@),
            ne == events@.len(),
            k as int == batch_offset(reqs@, i as int),
            k <= ne,
            out@.len() == i,
            forall|t: int|
                0 <= t < i ==> (#[trigger] out@[t]).0 == reqs@[t].request_id,
            forall|t: int|
                0 <= t < i ==> ((#[trigger] out@[t]).1 matches BatchResult::Success(g)
                    && g@.len() == reqs@[t].messages@.len() && (forall|j: int|
                    0 <= j < g@.len() ==> (#[trigger] g@[j])@ == events@[batch_offset(reqs@, t)
                        + j]@)),
        decreases reqs.len() - i,
    {
        let n = reqs[i].messages.len();
        proof {
            lemma_offset_step(reqs@, i as int);
            lemma_offset_in_range(reqs@, i as int + 1);
            lemma_message_count_nonneg(reqs@.skip(i as int + 1));
        }
        let mut group: Vec<Vec<ChainEvent>> = Vec::new();
        let mut j: usize = 0;
        while j < n
            invariant
                j <= n,
                i < reqs.len(),
                n == reqs@[i as int].messages@.len(),
                ne == events@.len(),
                k + n <= ne,
                group@.len() == j,
                forall|t: int|
                    0 <= t < j ==> (#[trigger] group@[t])@ == events@[k as int + t]@,
            decreases n - j,
        {
            let g = copy_items(&events[k + j]);
            group.push(g);
            j = j + 1;
        }
        out.push((reqs[i].request_id, BatchResult::Success(group)));
        k = k + n;
        i = i + 1;
    }
    out
}

/// On a failed transaction, deliver the same failure to every drained
/// request: an all-or-nothing failure cannot be attributed to a subset of
/// the batch.
pub fn distribute_failure(reqs: &Vec<BatchRequest>, error: RelayError) -> (out: Vec<
    (u64, BatchResult),
>)
    ensures
        out@.len() == reqs@.len(),
        forall|i: int|
            0 <= i < out@.len() ==> (#[trigger] out@[i]).0 == reqs@[i].request_id,
        forall|i: int|
            0 <= i < out@.len() ==> (#[trigger] out@[i]).1 == BatchResult::Failure(error),
{
    let mut out: Vec<(u64, BatchResult)> = Vec::new();
    let mut i: usize = 0;
    while i < reqs.len()
        invariant
            i <= reqs.len(),
            out@.len() == i,
            forall|t: int|
                0 <= t < i ==> (#[trigger] out@[t]).0 == reqs@[t].request_id,
            forall|t: int|
                0 <= t < i ==> (#[trigger] out@[t]).1 == BatchResult::Failure(error),
        decreases reqs.len() - i,
    {
        out.push((reqs[i].request_id, BatchResult::Failure(error)));
        i = i + 1;
    }
    out
}

impl BatchWorkerState {
    /// A fresh, open worker with an empty queue.
    pub fn new(config: BatchConfig) -> (w: BatchWorkerState)
        ensures
            w.queue@.len() == 0,
            !w.closed,
            w.config == config,
    {
        BatchWorkerState { queue: Vec::new(), closed: false, config }
    }

    /// Admission control: queue the request, or report why it cannot be
    /// queued, handing it back untouched. A closed worker fails every new
    /// request at once; a full queue makes the caller wait for a flush.
    pub fn try_enqueue(&mut self, request: BatchRequest) -> (r: EnqueueOutcome)
        ensures
            final(self).closed == old(self).closed,
            final(self).config == old(self).config,
            old(self).closed ==> (r matches EnqueueOutcome::Closed(b) && b == request)
                && final(self).queue@ == old(self).queue@,
            !old(self).closed && old(self).queue@.len() >= old(self).config.queue_capacity ==> (
            r matches EnqueueOutcome::Full(b) && b == request) && final(self).queue@ == old(
                self,
            ).queue@,
            !old(self).closed && old(self).queue@.len() < old(self).config.queue_capacity ==> (
            r is Accepted) && final(self).queue@ == old(self).queue@.push(request),
    {
        if self.closed {
            EnqueueOutcome::Closed(request)
        } else if self.queue.len() >= self.config.queue_capacity {
            EnqueueOutcome::Full(request)
        } else {
            self.queue.push(request);
            EnqueueOutcome::Accepted
        }
    }

    /// Whether enough messages are pending that a flush is due at once,
    /// rather than at the next periodic interval.
    pub fn flush_due(&self) -> (r: bool)
        ensures
            r == (batch_message_count(self.queue@) >= self.config.max_batch_size),
    {
        let mut remaining: usize = self.config.max_batch_size;
        let mut i: usize = 0;
        proof {
            assert(self.queue@.take(0) =~= Seq::<BatchRequest>::empty());
        }
        while i < self.queue.len()
            invariant
                i <= self.queue@.len(),
                remaining <= self.config.max_batch_size,
                batch_message_count(self.queue@.take(i as int)) == self.config.max_batch_size
                    - remaining,
            decreases self.queue@.len() - i,
        {
            let n = self.queue[i].messages.len();
            proof {
                assert(self.queue@.take(i + 1).drop_last() =~= self.queue@.take(i as int));
                lemma_message_count_nonneg(self.queue@.take(i as int));
                lemma_offset_in_range(self.queue@, i + 1);
                lemma_message_count_nonneg(self.queue@.skip(i + 1));
            }
            if n >= remaining {
                return true;
            }
            remaining = remaining - n;
            i = i + 1;
        }
        proof {
            assert(self.queue@.take(self.queue@.len() as int) =~= self.queue@);
        }
        remaining == 0
    }

    /// Shut the worker down: every outstanding request fails at once with
    /// `WorkerClosed`, in queue order, and every later enqueue is refused.
    /// Irreversible.
    pub fn close(&mut self) -> (failed: Vec<(u64, BatchResult)>)
        ensures
            final(self).closed,
            final(self).queue@.len() == 0,
            final(self).config == old(self).config,
            failed@.len() == old(self).queue@.len(),
            forall|i: int|
                0 <= i < failed@.len() ==> (#[trigger] failed@[i]).0 == old(
                    self,
                ).queue@[i].request_id,
            forall|i: int|
                0 <= i < failed@.len() ==> (#[trigger] failed@[i]).1 == BatchResult::Failure(
                    RelayError::WorkerClosed,
                ),
    {
        self.closed = true;
        let mut drained: Vec<BatchRequest> = Vec::new();
        core::mem::swap(&mut self.queue, &mut drained);
        distribute_failure(&drained, RelayError::WorkerClosed)
    }

    /// One flush cycle: drain everything queued, submit it as a single
    /// transaction, and answer each drained request once, in drain order.
    /// On success each request gets exactly its own messages' event
    /// groups; on failure every request gets the same failure. An empty
    /// queue submits nothing.
    pub fn flush<C: MessageSubmitter>(&mut self, chain: &mut C) -> (out: Vec<(u64, BatchResult)>)
        ensures
            final(self).queue@.len() == 0,
            final(self).closed == old(self).closed,
            final(self).config == old(self).config,
            out@.len() == old(self).queue@.len(),
            forall|i: int|
                0 <= i < out@.len() ==> (#[trigger] out@[i]).0 == old(self).queue@[i].request_id,
            old(self).queue@.len() == 0 ==> final(chain).model() == old(chain).model(),
            ({
                &&& old(self).queue@.len() > 0
                &&& final(chain).model().submitted == old(chain).model().submitted.push(
                    concat_batch_messages(old(self).queue@),
                )
                &&& crate::chain::same_except_submitted(old(chain).model(), final(chain).model())
                &&& (exists|evs: Seq<Vec<ChainEvent>>|
                    {
                        &&& evs.len() == batch_message_count(old(self).queue@)
                        &&& forall|i: int|
                            0 <= i < out@.len() ==> ((#[trigger] out@[i]).1 matches
                            BatchResult::Success(g) && g@.len() == old(
                                self,
                            ).queue@[i].messages@.len() && (forall|j: int|
                                0 <= j < g@.len() ==> (#[trigger] g@[j])@ == evs[batch_offset(
                                    old(self).queue@,
                                    i,
                                ) + j]@))
                    })
            } || {
                &&& final(chain).model() == old(chain).model()
                &&& (forall|i: int|
                    0 <= i < out@.len() ==> (#[trigger] out@[i]).1 == BatchResult::Failure(
                        RelayError::SubmissionError,
                    ))
            }),
    {
        let mut drained: Vec<BatchRequest> = Vec::new();
        core::mem::swap(&mut self.queue, &mut drained);
        if drained.len() == 0 {
            return Vec::new();
        }
        let messages = concat_requests(&drained);
        proof {
            lemma_concat_len(drained@);
        }
        match chain.submit_messages(&messages) {
            Ok(events) => distribute_success(&drained, &events),
            Err(error) => distribute_failure(&drained, error),
        }
    }
}

} // verus!
