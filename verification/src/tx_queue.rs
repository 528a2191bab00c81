use once_cell::sync::OnceCell;
use std::collections::VecDeque;
use std::sync::Mutex;
use vstd::arithmetic::power2::{lemma2_to64, lemma_pow2_strictly_increases, pow2};
use vstd::prelude::*;

verus! {

/// How many times a failed transaction is retried before its failure is reported.
pub const MAX_RETRIES: u32 = 500;

/// The back-off doubles with each retry up to this exponent and stays there.
pub const MAX_BACKOFF_EXPONENT: u32 = 10;

/// The back-off unit, in milliseconds.
pub const BACKOFF_UNIT_MS: u64 = 1000;

/// What a transaction of the feeder produces when it succeeds.
#[derive(Debug)]
pub enum TxOutput {
    OracleFeedSuccess,
}

/// A transaction waiting in the queue: the work to run (`executor`), where to
/// send its outcome (`responder`), and how often it has been retried.
pub struct Transaction<E, R> {
    pub executor: E,
    pub responder: Option<R>,
    pub retry_count: u32,
}

/// What the queue worker does after a transaction failed.
#[derive(Debug, PartialEq, Eq, Structural)]
pub enum FailureAction {
    /// Wait `delay_ms` milliseconds, then put the transaction back at the front.
    Retry { delay_ms: u64 },
    /// Stop retrying and hand the failure to the responder.
    GiveUp,
}

/// The exponent of the back-off after `retry_count` retries: the count, capped.
pub open spec fn backoff_exponent(retry_count: u32) -> nat {
    if retry_count < MAX_BACKOFF_EXPONENT {
        retry_count as nat
    } else {
        MAX_BACKOFF_EXPONENT as nat
    }
}

/// The back-off, in milliseconds, before a transaction that has been retried
/// `retry_count` times runs again: `1000 * 2^min(retry_count, 10)`.
pub open spec fn retry_delay(retry_count: u32) -> nat {
    (BACKOFF_UNIT_MS * pow2(backoff_exponent(retry_count))) as nat
}

/// The decision taken when a transaction that had been retried `retry_count`
/// times fails again.
pub open spec fn failure_action(retry_count: u32) -> FailureAction {
    if retry_count < MAX_RETRIES {
        FailureAction::Retry { delay_ms: retry_delay((retry_count + 1) as u32) as u64 }
    } else {
        FailureAction::GiveUp
    }
}

/// The back-off before a transaction retried `retry_count` times runs again.
pub fn retry_delay_ms(retry_count: u32) -> (delay: u64)
    ensures
        delay == retry_delay(retry_count),
{
    let exponent: u32 = if retry_count < MAX_BACKOFF_EXPONENT {
        retry_count
    } else {
        MAX_BACKOFF_EXPONENT
    };
    proof {
        lemma2_to64();
    }
    let mut factor: u64 = 1;
    let mut i: u32 = 0;
    while i < exponent
        invariant
            i <= exponent,
            exponent == backoff_exponent(retry_count),
            exponent <= MAX_BACKOFF_EXPONENT,
            factor == pow2(i as nat),
            pow2(0) == 1,
            pow2(1) == 2,
            pow2(2) == 4,
            pow2(3) == 8,
            pow2(4) == 16,
            pow2(5) == 32,
            pow2(6) == 64,
            pow2(7) == 128,
            pow2(8) == 256,
            pow2(9) == 512,
            pow2(10) == 1024,
        decreases exponent - i,
    {
        factor = factor * 2;
        i = i + 1;
    }
    BACKOFF_UNIT_MS * factor
}

impl<E, R> Transaction<E, R> {
    /// A transaction that has not been retried yet.
    pub fn new(executor: E, responder: Option<R>) -> (tx: Self)
        ensures
            tx.executor == executor,
            tx.responder == responder,
            tx.retry_count == 0,
    {
        Transaction { executor, responder, retry_count: 0 }
    }

    /// Counts one more retry.
    pub fn increment_retry(&mut self)
        requires
            old(self).retry_count < u32::MAX,
        ensures
            final(self).retry_count == old(self).retry_count + 1,
            final(self).executor == old(self).executor,
            final(self).responder == old(self).responder,
    {
        self.retry_count = self.retry_count + 1;
    }

    /// How often the transaction has been retried.
    pub fn retry_count(&self) -> (count: u32)
        ensures
            count == self.retry_count,
    {
        self.retry_count
    }

    /// Records that the transaction failed once more and decides what follows:
    /// while fewer than `MAX_RETRIES` retries were made, one more retry is
    /// counted and the back-off for the new count is returned; after that the
    /// failure is final and the transaction is left as it was.
    pub fn handle_failure(&mut self) -> (action: FailureAction)
        ensures
            action == failure_action(old(self).retry_count),
            final(self).executor == old(self).executor,
            final(self).responder == old(self).responder,
            old(self).retry_count < MAX_RETRIES ==> final(self).retry_count == old(self).retry_count + 1,
            old(self).retry_count >= MAX_RETRIES ==> final(self).retry_count == old(self).retry_count,
    {
        if self.retry_count < MAX_RETRIES {
            self.increment_retry();
            let delay_ms = retry_delay_ms(self.retry_count);
            FailureAction::Retry { delay_ms }
        } else {
            FailureAction::GiveUp
        }
    }
}

/// What the worker does with a transaction once its execution has ended.
pub enum WorkerStep<E, R, T, X> {
    /// Send `result` to `responder`, if there is one; the transaction is done
    /// and is not run again.
    Deliver { responder: Option<R>, result: Result<T, X> },
    /// Wait `delay_ms` milliseconds, then put `tx` back at the front.
    RetryAfter { delay_ms: u64, tx: Transaction<E, R> },
}

/// The outcome of an execution for a transaction retried `retry_count`
/// times: `None` when its result is delivered (a success, or a failure after
/// the last retry), `Some` of the new retry count when it is retried.
pub open spec fn settled(retry_count: u32, succeeded: bool) -> Option<u32> {
    if succeeded || retry_count >= MAX_RETRIES {
        None
    } else {
        Some((retry_count + 1) as u32)
    }
}

impl<E, R> Transaction<E, R> {
    /// Decides what follows an execution that ended with `outcome`: a success
    /// is delivered to the responder; a failure is retried after the back-off
    /// while fewer than `MAX_RETRIES` retries were made, and delivered after
    /// that.
    pub fn settle<T, X>(self, outcome: Result<T, X>) -> (step: WorkerStep<E, R, T, X>)
        ensures
            settled(self.retry_count, outcome is Ok) is None ==> step == (WorkerStep::<E, R, T, X>::Deliver {
                responder: self.responder,
                result: outcome,
            }),
            settled(self.retry_count, outcome is Ok) is Some ==> ({
                let n = settled(self.retry_count, outcome is Ok)->Some_0;
                &&& step is RetryAfter
                &&& step->delay_ms == retry_delay(n)
                &&& step->tx.retry_count == n
                &&& step->tx.executor == self.executor
                &&& step->tx.responder == self.responder
            }),
    {
        match outcome {
            Ok(result) => WorkerStep::Deliver { responder: self.responder, result: Ok(result) },
            Err(e) => {
                proof {
                    law_backoff_is_bounded_and_monotone((self.retry_count + 1) as u32, 0);
                }
                let mut tx = self;
                match tx.handle_failure() {
                    FailureAction::Retry { delay_ms } => WorkerStep::RetryAfter { delay_ms, tx },
                    FailureAction::GiveUp => WorkerStep::Deliver { responder: tx.responder, result: Err(e) },
                }
            },
        }
    }
}

/// Whether a transaction retried `retry_count` times has its result delivered
/// within the executions whose successes `outcomes` lists, in order.
pub open spec fn delivered_within(retry_count: u32, outcomes: Seq<bool>) -> bool
    decreases outcomes.len(),
{
    if outcomes.len() == 0 {
        false
    } else {
        match settled(retry_count, outcomes[0]) {
            None => true,
            Some(n) => delivered_within(n, outcomes.drop_first()),
        }
    }
}

/// Every transaction gets an answer: whatever its executions return, a
/// transaction retried `retry_count <= MAX_RETRIES` times has its result
/// delivered within `MAX_RETRIES - retry_count + 1` executions, so a new
/// transaction is run at most `MAX_RETRIES + 1` times.
pub proof fn law_every_transaction_is_answered(retry_count: u32, outcomes: Seq<bool>)
    requires
        retry_count <= MAX_RETRIES,
        outcomes.len() >= MAX_RETRIES - retry_count + 1,
    ensures
        delivered_within(retry_count, outcomes),
    decreases MAX_RETRIES - retry_count,
{
    match settled(retry_count, outcomes[0]) {
        None => {},
        Some(n) => {
            law_every_transaction_is_answered(n, outcomes.drop_first());
        },
    }
}

/// What a worker delivers, and what is left in the queue, when it drains
/// `pending` (each transaction given by its label and its retry count) and
/// its executions succeed as `outcomes` says, in order: it takes the front
/// transaction, runs it, and settles it, delivering its result or putting it
/// back at the front with one more retry. It stops when the queue is empty or
/// `outcomes` is used up.
pub open spec fn worker_run<T>(pending: Seq<(T, u32)>, outcomes: Seq<bool>) -> (
    Seq<T>,
    Seq<(T, u32)>,
)
    decreases outcomes.len(),
{
    if outcomes.len() == 0 {
        (Seq::empty(), pending)
    } else {
        match taken(pending).0 {
            None => (Seq::empty(), pending),
            Some(front) => match settled(front.1, outcomes[0]) {
                None => {
                    let rest = worker_run(taken(pending).1, outcomes.drop_first());
                    (seq![front.0] + rest.0, rest.1)
                },
                Some(n) => worker_run(requeued(taken(pending).1, (front.0, n)), outcomes.drop_first()),
            },
        }
    }
}

/// The labels of the transactions of a queue, front first.
pub open spec fn labels<T>(pending: Seq<(T, u32)>) -> Seq<T> {
    pending.map_values(|p: (T, u32)| p.0)
}

/// How many executions the transactions of `pending` can still take at most.
pub open spec fn execution_budget<T>(pending: Seq<(T, u32)>) -> nat
    decreases pending.len(),
{
    if pending.len() == 0 {
        0
    } else {
        let own: nat = if pending[0].1 <= MAX_RETRIES {
            (MAX_RETRIES + 1 - pending[0].1) as nat
        } else {
            1
        };
        own + execution_budget(pending.drop_first())
    }
}

/// Every queued transaction is answered, in the order of the queue: a worker
/// draining a queue of `k` transactions delivers a result for each of them,
/// front first, and leaves the queue empty (so it stops), whatever its
/// executions return, within `k * (MAX_RETRIES + 1)` executions.
pub proof fn law_worker_answers_every_queued_transaction<T>(
    pending: Seq<(T, u32)>,
    outcomes: Seq<bool>,
)
    requires
        outcomes.len() >= pending.len() * (MAX_RETRIES + 1),
    ensures
        worker_run(pending, outcomes) == (labels(pending), Seq::<(T, u32)>::empty()),
        !processing_after_take(worker_run(pending, outcomes).1, true),
{
    lemma_budget_bound(pending);
    lemma_worker_run_within_budget(pending, outcomes);
}

proof fn lemma_budget_bound<T>(pending: Seq<(T, u32)>)
    ensures
        execution_budget(pending) <= pending.len() * (MAX_RETRIES + 1),
    decreases pending.len(),
{
    if pending.len() > 0 {
        lemma_budget_bound(pending.drop_first());
    }
}

proof fn lemma_worker_run_within_budget<T>(pending: Seq<(T, u32)>, outcomes: Seq<bool>)
    requires
        outcomes.len() >= execution_budget(pending),
    ensures
        worker_run(pending, outcomes) == (labels(pending), Seq::<(T, u32)>::empty()),
    decreases outcomes.len(),
{
    if pending.len() == 0 {
        assert(labels(pending) =~= Seq::<T>::empty());
        assert(pending =~= Seq::<(T, u32)>::empty());
    } else {
        let front = pending[0];
        let rest = pending.drop_first();
        assert(outcomes.len() >= 1);
        match settled(front.1, outcomes[0]) {
            None => {
                lemma_worker_run_within_budget(rest, outcomes.drop_first());
                assert(seq![front.0] + labels(rest) =~= labels(pending));
            },
            Some(n) => {
                let again = requeued(rest, (front.0, n));
                assert(again.drop_first() =~= rest);
                assert(again[0] == (front.0, n));
                lemma_worker_run_within_budget(again, outcomes.drop_first());
                assert(labels(again) =~= labels(pending));
            },
        }
    }
}

/// The queue after `tx` was appended at the back.
pub open spec fn enqueued<T>(pending: Seq<T>, tx: T) -> Seq<T> {
    pending.push(tx)
}

/// The queue after `tx` was put back at the front.
pub open spec fn requeued<T>(pending: Seq<T>, tx: T) -> Seq<T> {
    seq![tx] + pending
}

/// What taking the next transaction hands out, and the queue that is left.
pub open spec fn taken<T>(pending: Seq<T>) -> (Option<T>, Seq<T>) {
    if pending.len() == 0 {
        (None, pending)
    } else {
        (Some(pending[0]), pending.drop_first())
    }
}

/// The queue after each of `txs` was appended in turn.
pub open spec fn enqueued_all<T>(pending: Seq<T>, txs: Seq<T>) -> Seq<T>
    decreases txs.len(),
{
    if txs.len() == 0 {
        pending
    } else {
        enqueued_all(enqueued(pending, txs[0]), txs.drop_first())
    }
}

/// The transactions handed out, in order, when the queue is drained.
pub open spec fn drained<T>(pending: Seq<T>) -> Seq<T>
    decreases pending.len(),
{
    if pending.len() == 0 {
        Seq::empty()
    } else {
        seq![taken(pending).0.unwrap()] + drained(taken(pending).1)
    }
}

/// Whether a worker must be started, and the processing flag afterwards,
/// when the queue is asked to be processed while `processing` holds.
pub open spec fn started(processing: bool) -> (bool, bool) {
    (!processing, true)
}

/// The processing flag after a worker took from `pending`: a worker that
/// finds the queue empty stops.
pub open spec fn processing_after_take<T>(pending: Seq<T>, processing: bool) -> bool {
    if pending.len() == 0 {
        false
    } else {
        processing
    }
}

/// The transactions waiting to run and whether a worker is running them.
pub struct TransactionQueue<E, R> {
    pub inner: VecDeque<Transaction<E, R>>,
    pub processing: bool,
}

impl<E, R> TransactionQueue<E, R> {
    /// An empty queue with no worker.
    pub fn new() -> (queue: Self)
        ensures
            queue.inner@ == Seq::<Transaction<E, R>>::empty(),
            !queue.processing,
    {
        TransactionQueue { inner: VecDeque::new(), processing: false }
    }

    /// Marks the queue as being processed. The result tells whether a worker
    /// has to be started: it is `true` exactly when none was running.
    pub fn start_processing(&mut self) -> (start_worker: bool)
        ensures
            (start_worker, final(self).processing) == started(old(self).processing),
            final(self).inner@ == old(self).inner@,
    {
        let was_processing = self.processing;
        self.processing = true;
        !was_processing
    }

    /// Appends a transaction and makes sure that the queue is being processed;
    /// the result tells whether a worker has to be started for it.
    pub fn enqueue(&mut self, tx: Transaction<E, R>) -> (start_worker: bool)
        ensures
            final(self).inner@ == enqueued(old(self).inner@, tx),
            (start_worker, final(self).processing) == started(old(self).processing),
    {
        self.inner.push_back(tx);
        self.start_processing()
    }

    /// Takes the transaction at the front. When the queue is empty the worker
    /// stops: nothing is handed out and the queue is no longer processed.
    pub fn next_transaction(&mut self) -> (next: Option<Transaction<E, R>>)
        ensures
            (next, final(self).inner@) == taken(old(self).inner@),
            final(self).processing == processing_after_take(old(self).inner@, old(self).processing),
    {
        let next = self.inner.pop_front();
        if next.is_none() {
            self.processing = false;
        }
        next
    }

    /// Puts a transaction that is to be retried back at the front, so that it
    /// runs before anything that was queued after it.
    pub fn requeue(&mut self, tx: Transaction<E, R>)
        ensures
            final(self).inner@ == requeued(old(self).inner@, tx),
            final(self).processing == old(self).processing,
    {
        self.inner.push_front(tx);
    }

    /// The number of waiting transactions.
    pub fn len(&self) -> (n: usize)
        ensures
            n == self.inner@.len(),
    {
        self.inner.len()
    }

    /// Whether no transaction is waiting.
    pub fn is_empty(&self) -> (b: bool)
        ensures
            b == (self.inner@.len() == 0),
    {
        self.inner.len() == 0
    }
}

/// once_cell's `sync::OnceCell`, a cell that is written at most once.
#[verifier::external_type_specification]
#[verifier::external_body]
#[verifier::reject_recursive_types(T)]
pub struct ExOnceCell<T>(OnceCell<T>);

/// std's `sync::Mutex`, which guards the queue shared by the tasks of the feeder.
#[verifier::external_type_specification]
#[verifier::external_body]
#[verifier::reject_recursive_types(T)]
pub struct ExMutex<T: ?Sized>(Mutex<T>);

/// Calls `OnceCell::set`, which stores `value` if the cell is empty and
/// otherwise hands `value` back. Stated: what comes back in an `Err` is the
/// value that was passed. Not stated: which of the two happens, which depends
/// on what other code did to the cell before.
#[verifier::external_body]
fn once_cell_set<T>(cell: &OnceCell<T>, value: T) -> (r: Result<(), T>)
    ensures
        r matches Err(v) ==> v == value,
{
    cell.set(value)
}

/// Calls `Mutex::new`, which wraps `value` in a new, unlocked mutex. Nothing
/// is stated of the result: the mutex is opaque here.
#[verifier::external_body]
fn new_mutex<T>(value: T) -> Mutex<T> {
    Mutex::new(value)
}

/// Installs an empty, idle transaction queue in `cell` unless it already
/// holds one; in that case the cell is left as it is. The result is the
/// queue offered to the cell: empty and not being processed, so the first
/// enqueue on it asks for a worker to be started.
pub fn init_transaction_queue<E, R>(cell: &OnceCell<Mutex<TransactionQueue<E, R>>>) -> (offered:
    Ghost<TransactionQueue<E, R>>)
    ensures
        offered@.inner@ == Seq::<Transaction<E, R>>::empty(),
        !offered@.processing,
        started(offered@.processing).0,
{
    let queue: TransactionQueue<E, R> = TransactionQueue::new();
    let ghost offered = queue;
    let _ = once_cell_set(cell, new_mutex(queue));
    Ghost(offered)
}

/// The queue together with the workers that drain it, as the feeder runs
/// them: a worker is started whenever an enqueue asks for one, and a worker
/// stops when taking finds the queue empty.
pub struct QueueModel<T> {
    pub pending: Seq<T>,
    pub processing: bool,
    pub workers: nat,
}

/// One step of the queue and its workers.
pub enum QueueStep<T> {
    /// A caller enqueues `tx` (`enqueue`), starting a worker if asked to.
    Enqueue(T),
    /// A running worker takes the next transaction (`next_transaction`).
    Take,
    /// A running worker puts a failed transaction back (`requeue`).
    Requeue(T),
}

/// The state after `step`, as the contracts of `enqueue`,
/// `next_transaction` and `requeue` describe it.
pub open spec fn queue_after<T>(m: QueueModel<T>, step: QueueStep<T>) -> QueueModel<T> {
    match step {
        QueueStep::Enqueue(tx) => {
            let (start_worker, processing) = started(m.processing);
            QueueModel {
                pending: enqueued(m.pending, tx),
                processing,
                workers: if start_worker {
                    m.workers + 1
                } else {
                    m.workers
                },
            }
        },
        QueueStep::Take => {
            let (next, rest) = taken(m.pending);
            QueueModel {
                pending: rest,
                processing: processing_after_take(m.pending, m.processing),
                workers: if next is None {
                    (m.workers - 1) as nat
                } else {
                    m.workers
                },
            }
        },
        QueueStep::Requeue(tx) => QueueModel {
            pending: requeued(m.pending, tx),
            processing: m.processing,
            workers: m.workers,
        },
    }
}

/// Whether `step` can happen: only a running worker takes or requeues.
pub open spec fn step_allowed<T>(m: QueueModel<T>, step: QueueStep<T>) -> bool {
    match step {
        QueueStep::Enqueue(_) => true,
        _ => m.workers >= 1,
    }
}

/// The queue's invariant: exactly one worker runs while the queue is being
/// processed and none otherwise, and a queue that is not being processed is
/// empty.
pub open spec fn queue_inv<T>(m: QueueModel<T>) -> bool {
    &&& m.workers == (if m.processing {
        1nat
    } else {
        0nat
    })
    &&& (!m.processing ==> m.pending.len() == 0)
}

/// In every interleaving of enqueues, takes and requeues, at most one worker
/// drains the queue, and whenever a transaction waits a worker is running:
/// the invariant holds of the empty, idle queue and every allowed step keeps it.
pub proof fn law_one_worker_in_every_interleaving<T>(m: QueueModel<T>, step: QueueStep<T>)
    ensures
        queue_inv(QueueModel { pending: Seq::<T>::empty(), processing: false, workers: 0 }),
        queue_inv(m) && step_allowed(m, step) ==> queue_inv(queue_after(m, step)),
        queue_inv(m) ==> m.workers <= 1,
        queue_inv(m) && m.pending.len() > 0 ==> m.workers == 1,
{
}

/// Draining a queue after appending `txs` hands out what was queued before,
/// then `txs`, each exactly once and in the order in which they were appended.
pub proof fn law_fifo_order<T>(pending: Seq<T>, txs: Seq<T>)
    ensures
        drained(enqueued_all(pending, txs)) == drained(pending) + txs,
    decreases txs.len(),
{
    if txs.len() == 0 {
        assert(drained(pending) + txs =~= drained(pending));
    } else {
        law_fifo_order(enqueued(pending, txs[0]), txs.drop_first());
        lemma_drained_push(pending, txs[0]);
        assert(drained(pending) + seq![txs[0]] + txs.drop_first() =~= drained(pending) + txs);
    }
}

/// Draining a queue after appending one transaction hands it out last.
proof fn lemma_drained_push<T>(pending: Seq<T>, tx: T)
    ensures
        drained(enqueued(pending, tx)) == drained(pending) + seq![tx],
    decreases pending.len(),
{
    if pending.len() == 0 {
        assert(enqueued(pending, tx) =~= seq![tx]);
        assert(taken(seq![tx]).1 =~= Seq::<T>::empty());
        assert(drained(Seq::<T>::empty()) == Seq::<T>::empty());
        assert(drained(seq![tx]) =~= seq![tx]);
        assert(drained(pending) + seq![tx] =~= seq![tx]);
    } else {
        assert(taken(enqueued(pending, tx)).1 =~= enqueued(taken(pending).1, tx));
        assert(taken(enqueued(pending, tx)).0 == Some(pending[0]));
        lemma_drained_push(taken(pending).1, tx);
        assert(seq![pending[0]] + (drained(taken(pending).1) + seq![tx])
            =~= (seq![pending[0]] + drained(taken(pending).1)) + seq![tx]);
    }
}

/// A transaction put back for a retry is the next one handed out, and the
/// rest of the queue follows in its old order.
pub proof fn law_retry_runs_next<T>(pending: Seq<T>, tx: T)
    ensures
        taken(requeued(pending, tx)).0 == Some(tx),
        taken(requeued(pending, tx)).1 == pending,
{
    assert(requeued(pending, tx).drop_first() =~= pending);
}

/// At most one worker runs: once the queue is being processed, starting it
/// again (which `enqueue` does) asks for no new worker; a worker that finds the
/// queue empty stops, and the next start then asks for one.
pub proof fn law_single_worker<T>(processing: bool, pending: Seq<T>)
    ensures
        started(processing).1,
        !started(started(processing).1).0,
        pending.len() == 0 ==> started(processing_after_take(pending, processing)).0,
        pending.len() > 0 ==> processing_after_take(pending, processing) == processing,
{
}

/// A transaction that fails every time is retried exactly `MAX_RETRIES` times:
/// the failures it goes through, counted from `retry_count`, number
/// `MAX_RETRIES - retry_count + 1`, the last one being final.
pub open spec fn failures_until_final(retry_count: u32) -> nat
    decreases MAX_RETRIES - retry_count,
{
    if retry_count >= MAX_RETRIES {
        1
    } else {
        1 + failures_until_final((retry_count + 1) as u32)
    }
}

/// A transaction fails at most `MAX_RETRIES + 1` times before its failure is
/// reported: from retry count `n <= MAX_RETRIES`, `failure_action` says
/// `Retry` exactly `MAX_RETRIES - n` times, and its count never exceeds
/// `MAX_RETRIES`.
pub proof fn law_retries_are_bounded(retry_count: u32)
    requires
        retry_count <= MAX_RETRIES,
    ensures
        failures_until_final(retry_count) == MAX_RETRIES - retry_count + 1,
        failure_action(retry_count) is GiveUp <==> retry_count == MAX_RETRIES,
        failure_action(retry_count) is Retry ==> retry_count + 1 <= MAX_RETRIES,
    decreases MAX_RETRIES - retry_count,
{
    if retry_count < MAX_RETRIES {
        law_retries_are_bounded((retry_count + 1) as u32);
    }
}

/// Below the cap the back-off doubles with each retry, starting from one
/// second: `retry_delay(n + 1)` is twice `retry_delay(n)` for every `n < 10`,
/// so `retry_delay(n)` is `1000 * 2^n` ms up to ten retries.
pub proof fn law_backoff_doubles_below_cap(n: u32)
    requires
        n < MAX_BACKOFF_EXPONENT,
    ensures
        retry_delay((n + 1) as u32) == 2 * retry_delay(n),
        retry_delay(0) == BACKOFF_UNIT_MS,
{
    vstd::arithmetic::power2::lemma_pow2_unfold((n + 1) as nat);
    vstd::arithmetic::power2::lemma_pow2_unfold(1);
    vstd::arithmetic::power2::lemma2_to64();
}

/// The back-off grows with the number of retries and never exceeds
/// `1000 * 2^10` milliseconds; from ten retries on it stays there.
pub proof fn law_backoff_is_bounded_and_monotone(a: u32, b: u32)
    ensures
        a <= b ==> retry_delay(a) <= retry_delay(b),
        retry_delay(a) <= 1_024_000,
        a >= MAX_BACKOFF_EXPONENT ==> retry_delay(a) == 1_024_000,
        retry_delay(0) == 1000,
        retry_delay(1) == 2000,
{
    lemma2_to64();
    if backoff_exponent(a) < backoff_exponent(b) {
        lemma_pow2_strictly_increases(backoff_exponent(a), backoff_exponent(b));
    }
    if backoff_exponent(a) < 10 {
        lemma_pow2_strictly_increases(backoff_exponent(a), 10);
    }
}

} // verus!
