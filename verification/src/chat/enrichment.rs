//! Bounded, coalescing queue of enrichment wake jobs.

use vstd::prelude::*;

verus! {

pub const ENRICHMENT_QUEUE_CAPACITY: usize = 1;
pub const ENRICHMENT_PENDING_CAPACITY: usize = 64;

/// A content-free wake marker for the durable observation of one turn.
#[derive(Debug)]
pub struct EnrichmentJob {
    pub turn_id: u64,
    /// Text carried only by jobs that tests construct; production wakes are empty.
    pub user_text: String,
}

impl EnrichmentJob {
    pub fn wake(turn_id: u64) -> (j: EnrichmentJob)
        ensures
            j.turn_id == turn_id,
            j.user_text@.len() == 0,
    {
        EnrichmentJob { turn_id, user_text: String::new() }
    }
}

fn bump(x: u64) -> (r: u64)
    ensures
        r == if x < u64::MAX {
            x + 1
        } else {
            x as int
        },
{
    if x < u64::MAX {
        x + 1
    } else {
        x
    }
}

/// Counters of one bounded queue.
#[derive(Debug)]
pub struct QueueMetrics {
    name: String,
    capacity: usize,
    depth: usize,
    enqueued: u64,
    dropped: u64,
    coalesced: u64,
    busy: u64,
}

/// A point-in-time copy of queue counters.
#[derive(Debug)]
pub struct QueueMetricsSnapshot {
    pub name: String,
    pub capacity: usize,
    pub depth: usize,
    pub enqueued: u64,
    pub dropped: u64,
    pub coalesced: u64,
    pub busy: u64,
}

impl QueueMetrics {
    pub closed spec fn depth_spec(&self) -> nat {
        self.depth as nat
    }

    pub closed spec fn capacity_spec(&self) -> nat {
        self.capacity as nat
    }

    pub closed spec fn dropped_spec(&self) -> u64 {
        self.dropped
    }

    pub closed spec fn coalesced_spec(&self) -> u64 {
        self.coalesced
    }

    pub closed spec fn busy_spec(&self) -> u64 {
        self.busy
    }

    pub fn new(name: &str, capacity: usize) -> (m: QueueMetrics)
        ensures
            m.depth_spec() == 0,
            m.capacity_spec() == capacity,
            m.dropped_spec() == 0,
            m.coalesced_spec() == 0,
            m.busy_spec() == 0,
    {
        QueueMetrics {
            name: name.to_owned(),
            capacity,
            depth: 0,
            enqueued: 0,
            dropped: 0,
            coalesced: 0,
            busy: 0,
        }
    }

    pub fn enqueued(&mut self)
        ensures
            final(self).depth_spec() == if old(self).depth_spec() < usize::MAX {
                old(self).depth_spec() + 1
            } else {
                old(self).depth_spec()
            },
            final(self).capacity_spec() == old(self).capacity_spec(),
            final(self).dropped_spec() == old(self).dropped_spec(),
            final(self).coalesced_spec() == old(self).coalesced_spec(),
            final(self).busy_spec() == old(self).busy_spec(),
    {
        if self.depth < usize::MAX {
            self.depth = self.depth + 1;
        }
        self.enqueued = bump(self.enqueued);
    }

    pub fn dequeued(&mut self)
        ensures
            final(self).depth_spec() == if old(self).depth_spec() > 0 {
                (old(self).depth_spec() - 1) as nat
            } else {
                0
            },
            final(self).capacity_spec() == old(self).capacity_spec(),
            final(self).dropped_spec() == old(self).dropped_spec(),
            final(self).coalesced_spec() == old(self).coalesced_spec(),
            final(self).busy_spec() == old(self).busy_spec(),
    {
        if self.depth > 0 {
            self.depth = self.depth - 1;
        }
    }

    pub fn dropped(&mut self)
        ensures
            final(self).dropped_spec() == if old(self).dropped_spec() < u64::MAX {
                old(self).dropped_spec() + 1
            } else {
                old(self).dropped_spec() as int
            },
            final(self).depth_spec() == old(self).depth_spec(),
            final(self).capacity_spec() == old(self).capacity_spec(),
            final(self).coalesced_spec() == old(self).coalesced_spec(),
            final(self).busy_spec() == old(self).busy_spec(),
    {
        self.dropped = bump(self.dropped);
    }

    pub fn coalesced(&mut self)
        ensures
            final(self).coalesced_spec() == if old(self).coalesced_spec() < u64::MAX {
                old(self).coalesced_spec() + 1
            } else {
                old(self).coalesced_spec() as int
            },
            final(self).depth_spec() == old(self).depth_spec(),
            final(self).capacity_spec() == old(self).capacity_spec(),
            final(self).dropped_spec() == old(self).dropped_spec(),
            final(self).busy_spec() == old(self).busy_spec(),
    {
        self.coalesced = bump(self.coalesced);
    }

    pub fn busy(&mut self)
        ensures
            final(self).busy_spec() == if old(self).busy_spec() < u64::MAX {
                old(self).busy_spec() + 1
            } else {
                old(self).busy_spec() as int
            },
            final(self).depth_spec() == old(self).depth_spec(),
            final(self).capacity_spec() == old(self).capacity_spec(),
            final(self).dropped_spec() == old(self).dropped_spec(),
            final(self).coalesced_spec() == old(self).coalesced_spec(),
    {
        self.busy = bump(self.busy);
    }

    pub fn snapshot(&self) -> (s: QueueMetricsSnapshot)
        ensures
            s.depth == self.depth_spec(),
            s.capacity == self.capacity_spec(),
            s.dropped == self.dropped_spec(),
            s.coalesced == self.coalesced_spec(),
            s.busy == self.busy_spec(),
    {
        QueueMetricsSnapshot {
            name: self.name.clone(),
            capacity: self.capacity,
            depth: self.depth,
            enqueued: self.enqueued,
            dropped: self.dropped,
            coalesced: self.coalesced,
            busy: self.busy,
        }
    }
}

#[verifier::external_type_specification]
#[verifier::external_body]
#[verifier::reject_recursive_types(T)]
pub struct ExSyncSender<T>(std::sync::mpsc::SyncSender<T>);

/// What happened to a wake token.
#[derive(Debug, Clone, Copy, PartialEq, Eq, Structural)]
pub enum WakeOutcome {
    Sent,
    Full,
    Disconnected,
}

/// Calls `SyncSender::try_send` with a wake token. The outcome depends on
/// the receiving worker thread, so nothing is stated about it.
#[verifier::external_body]
fn try_wake(wake: &std::sync::mpsc::SyncSender<()>) -> (r: WakeOutcome) {
    match wake.try_send(()) {
        Ok(()) => WakeOutcome::Sent,
        Err(std::sync::mpsc::TrySendError::Full(())) => WakeOutcome::Full,
        Err(std::sync::mpsc::TrySendError::Disconnected(())) => WakeOutcome::Disconnected,
    }
}

/// `x` raised `n` times by one, stopping at `max`.
pub open spec fn saturating_add(x: int, n: int, max: int) -> int {
    if x + n < max {
        x + n
    } else {
        max
    }
}

/// `x` lowered `n` times by one, stopping at zero.
pub open spec fn saturating_sub(x: int, n: int) -> int {
    if x > n {
        x - n
    } else {
        0
    }
}

pub open spec fn job_ids(jobs: Seq<EnrichmentJob>) -> Seq<u64> {
    jobs.map_values(|j: EnrichmentJob| j.turn_id)
}

/// Sender half of the enrichment queue: pending jobs are coalesced by turn
/// and bounded, and a wake token tells the worker to drain them.
#[derive(Debug)]
pub struct EnrichmentSender {
    wake: std::sync::mpsc::SyncSender<()>,
    pending: Option<Vec<EnrichmentJob>>,
    metrics: QueueMetrics,
}

impl EnrichmentSender {
    /// Turn ids of the pending jobs, in arrival order.
    pub closed spec fn pending_ids(&self) -> Seq<u64> {
        match self.pending {
            Some(v) => job_ids(v@),
            None => Seq::empty(),
        }
    }

    pub closed spec fn metrics_spec(&self) -> QueueMetrics {
        self.metrics
    }

    /// Whether a batch (possibly empty) is waiting for the worker.
    pub closed spec fn batch_present(&self) -> bool {
        self.pending is Some
    }

    /// No turn is pending twice and at most the capacity is pending.
    pub open spec fn wf(&self) -> bool {
        &&& self.pending_ids().no_duplicates()
        &&& self.pending_ids().len() <= ENRICHMENT_PENDING_CAPACITY
    }

    pub fn new(wake: std::sync::mpsc::SyncSender<()>, metrics: QueueMetrics) -> (s: EnrichmentSender)
        ensures
            s.pending_ids().len() == 0,
            s.metrics_spec() == metrics,
            s.wf(),
    {
        EnrichmentSender { wake, pending: None, metrics }
    }

    pub fn metrics(&self) -> (m: &QueueMetrics)
        ensures
            *m == self.metrics_spec(),
    {
        &self.metrics
    }

    /// Hands the pending batch to the worker.
    pub fn take_pending(&mut self) -> (r: Vec<EnrichmentJob>)
        requires
            old(self).wf(),
        ensures
            job_ids(r@) == old(self).pending_ids(),
            final(self).pending_ids().len() == 0,
            final(self).metrics_spec() == old(self).metrics_spec(),
            final(self).wf(),
    {
        match self.pending.take() {
            Some(v) => v,
            None => {
                let v: Vec<EnrichmentJob> = Vec::new();
                assert(job_ids(v@) =~= Seq::<u64>::empty());
                v
            },
        }
    }

    /// Queues a wake job for a turn. A turn that is already pending is
    /// coalesced; a full batch drops the job; a disconnected worker drops
    /// the whole batch.
    pub fn replace_latest(&mut self, job: EnrichmentJob) -> (r: Result<(), ()>)
        requires
            old(self).wf(),
        ensures
            final(self).wf(),
            final(self).metrics_spec().capacity_spec() == old(self).metrics_spec().capacity_spec(),
            old(self).pending_ids().contains(job.turn_id) ==> r is Ok && final(self).pending_ids()
                == old(self).pending_ids() && final(self).metrics_spec().coalesced_spec() == if old(
                self,
            ).metrics_spec().coalesced_spec() < u64::MAX {
                old(self).metrics_spec().coalesced_spec() + 1
            } else {
                old(self).metrics_spec().coalesced_spec() as int
            } && final(self).metrics_spec().depth_spec() == old(self).metrics_spec().depth_spec()
                && final(self).metrics_spec().dropped_spec() == old(self).metrics_spec().dropped_spec(),
            !old(self).pending_ids().contains(job.turn_id) && old(self).pending_ids().len()
                >= ENRICHMENT_PENDING_CAPACITY ==> r is Err && final(self).pending_ids() == old(
                self,
            ).pending_ids() && final(self).metrics_spec().dropped_spec() == if old(
                self,
            ).metrics_spec().dropped_spec() < u64::MAX {
                old(self).metrics_spec().dropped_spec() + 1
            } else {
                old(self).metrics_spec().dropped_spec() as int
            } && final(self).metrics_spec().depth_spec() == old(self).metrics_spec().depth_spec(),
            !old(self).pending_ids().contains(job.turn_id) && old(self).pending_ids().len()
                < ENRICHMENT_PENDING_CAPACITY ==> (r is Ok && final(self).pending_ids() == old(
                self,
            ).pending_ids().push(job.turn_id) && final(self).metrics_spec().dropped_spec() == old(
                self,
            ).metrics_spec().dropped_spec() && final(self).metrics_spec().depth_spec()
                == saturating_add(old(self).metrics_spec().depth_spec() as int, 1, usize::MAX as int))
                || (r is Err && final(self).pending_ids().len() == 0 && final(self).metrics_spec().depth_spec()
                == saturating_sub(
                saturating_add(old(self).metrics_spec().depth_spec() as int, 1, usize::MAX as int),
                old(self).pending_ids().len() + 1int,
            ) && final(self).metrics_spec().dropped_spec() == saturating_add(
                old(self).metrics_spec().dropped_spec() as int,
                old(self).pending_ids().len() + 1int,
                u64::MAX as int,
            )),
    {
        if self.pending.is_none() {
            self.pending = Some(Vec::new());
            assert(self.pending_ids() =~= Seq::<u64>::empty());
        }
        let mut batch = self.pending.take().unwrap();
        let ghost ids = job_ids(batch@);
        let mut i: usize = 0;
        let mut found = false;
        while i < batch.len()
            invariant
                i <= batch@.len(),
                ids == job_ids(batch@),
                found == exists|k: int| 0 <= k < i && batch@[k].turn_id == job.turn_id,
            decreases batch.len() - i,
        {
            if batch[i].turn_id == job.turn_id {
                found = true;
            }
            i = i + 1;
        }
        proof {
            if ids.contains(job.turn_id) {
                let k = choose|k: int| 0 <= k < ids.len() && ids[k] == job.turn_id;
                assert(batch@[k].turn_id == job.turn_id);
            }
            if found {
                let k = choose|k: int| 0 <= k < batch@.len() && batch@[k].turn_id == job.turn_id;
                assert(ids[k] == job.turn_id);
            }
        }
        if found {
            self.pending = Some(batch);
            self.metrics.coalesced();
            return Ok(());
        }
        if batch.len() >= ENRICHMENT_PENDING_CAPACITY {
            self.pending = Some(batch);
            self.metrics.dropped();
            return Err(());
        }
        let ghost turn = job.turn_id;
        batch.push(job);
        proof {
            assert(job_ids(batch@) =~= ids.push(turn));
            assert forall|a: int, b: int| 0 <= a < b < job_ids(batch@).len() implies job_ids(batch@)[a] != job_ids(batch@)[b] by {
                if b == ids.len() {
                    assert(ids[a] != turn);
                } else {
                    assert(ids[a] != ids[b]);
                }
            }
        }
        self.pending = Some(batch);
        self.metrics.enqueued();
        let outcome = try_wake(&self.wake);
        self.settle_wake(outcome)
    }

    /// Settles the batch after a wake attempt: a delivered wake keeps it as
    /// it is; a full wake channel (the worker already has a wake pending)
    /// keeps it and counts the busy signal; a disconnected worker drops the
    /// whole batch, counting each job as dequeued and dropped.
    pub fn settle_wake(&mut self, outcome: WakeOutcome) -> (r: Result<(), ()>)
        requires
            old(self).wf(),
        ensures
            final(self).wf(),
            final(self).metrics_spec().capacity_spec() == old(self).metrics_spec().capacity_spec(),
            outcome is Sent ==> r is Ok && final(self).pending_ids() == old(self).pending_ids()
                && final(self).metrics_spec() == old(self).metrics_spec(),
            outcome is Full ==> r is Ok && final(self).pending_ids() == old(self).pending_ids()
                && final(self).metrics_spec().busy_spec() == saturating_add(
                old(self).metrics_spec().busy_spec() as int,
                1,
                u64::MAX as int,
            ) && final(self).metrics_spec().depth_spec() == old(self).metrics_spec().depth_spec()
                && final(self).metrics_spec().dropped_spec() == old(self).metrics_spec().dropped_spec()
                && final(self).metrics_spec().coalesced_spec() == old(self).metrics_spec().coalesced_spec(),
            outcome is Disconnected ==> r is Err && final(self).pending_ids().len() == 0
                && final(self).metrics_spec().depth_spec() == saturating_sub(
                old(self).metrics_spec().depth_spec() as int,
                old(self).pending_ids().len() as int,
            ) && final(self).metrics_spec().dropped_spec() == saturating_add(
                old(self).metrics_spec().dropped_spec() as int,
                old(self).pending_ids().len() as int,
                u64::MAX as int,
            ),
    {
        match outcome {
            WakeOutcome::Sent => Ok(()),
            WakeOutcome::Full => {
                self.metrics.busy();
                Ok(())
            },
            WakeOutcome::Disconnected => {
                let discarded = self.take_pending();
                let ghost cap = self.metrics_spec().capacity_spec();
                let ghost depth0 = self.metrics_spec().depth_spec() as int;
                let ghost dropped0 = self.metrics_spec().dropped_spec() as int;
                let mut n: usize = 0;
                while n < discarded.len()
                    invariant
                        n <= discarded@.len(),
                        self.metrics_spec().capacity_spec() == cap,
                        self.metrics_spec().depth_spec() == saturating_sub(depth0, n as int),
                        self.metrics_spec().dropped_spec() == saturating_add(dropped0, n as int, u64::MAX as int),
                        dropped0 <= u64::MAX,
                        self.pending_ids().len() == 0,
                        self.wf(),
                    decreases discarded.len() - n,
                {
                    self.metrics.dequeued();
                    self.metrics.dropped();
                    n = n + 1;
                }
                Err(())
            },
        }
    }
}

// ---------------------------------------------------------------- worker side

/// Jobs the worker handles before it checks the rolling summary again.
pub const ENRICHMENT_JOBS_PER_SLICE: usize = 4;
/// Delay of a follow-up pass while work remains, in milliseconds.
pub const ENRICHMENT_FOLLOWUP_DELAY_MILLIS: u64 = 100;
/// Longest wait for a wake while nothing is due, in milliseconds.
pub const ENRICHMENT_IDLE_POLL_MILLIS: u64 = 20;

impl EnrichmentSender {
    /// Makes sure a drain is requested: with no batch waiting, a
    /// content-free wake marker for turn zero is queued.
    pub fn ensure_wake_marker(&mut self)
        requires
            old(self).wf(),
        ensures
            final(self).wf(),
            final(self).batch_present(),
            final(self).metrics_spec() == old(self).metrics_spec(),
            old(self).batch_present() ==> final(self).pending_ids() == old(self).pending_ids(),
            !old(self).batch_present() ==> final(self).pending_ids() == seq![0u64],
    {
        if self.pending.is_none() {
            let mut v: Vec<EnrichmentJob> = Vec::new();
            v.push(EnrichmentJob::wake(0));
            assert(job_ids(v@) =~= seq![0u64]);
            self.pending = Some(v);
        }
    }

    /// Hands the worker at most `ENRICHMENT_JOBS_PER_SLICE` jobs, oldest
    /// first; the rest stay pending. Also says whether any job stays.
    pub fn take_slice(&mut self) -> (r: (Vec<EnrichmentJob>, bool))
        requires
            old(self).wf(),
        ensures
            final(self).wf(),
            final(self).metrics_spec() == old(self).metrics_spec(),
            job_ids(r.0@) == old(self).pending_ids().take(
                if old(self).pending_ids().len() > ENRICHMENT_JOBS_PER_SLICE {
                    ENRICHMENT_JOBS_PER_SLICE as int
                } else {
                    old(self).pending_ids().len() as int
                },
            ),
            old(self).pending_ids().len() > ENRICHMENT_JOBS_PER_SLICE ==> final(self).batch_present()
                && final(self).pending_ids() == old(self).pending_ids().skip(ENRICHMENT_JOBS_PER_SLICE as int),
            old(self).pending_ids().len() <= ENRICHMENT_JOBS_PER_SLICE ==> !final(self).batch_present(),
            r.1 == (old(self).pending_ids().len() > ENRICHMENT_JOBS_PER_SLICE),
    {
        let ghost ids = self.pending_ids();
        let mut jobs = self.take_pending();
        if jobs.len() <= ENRICHMENT_JOBS_PER_SLICE {
            self.pending = None;
            assert(ids.take(ids.len() as int) =~= ids);
            return (jobs, false);
        }
        let mut rest: Vec<EnrichmentJob> = Vec::new();
        let mut head: Vec<EnrichmentJob> = Vec::new();
        let n = jobs.len();
        let mut i: usize = 0;
        while i < n
            invariant
                n == jobs@.len(),
                job_ids(jobs@) == ids,
                n > ENRICHMENT_JOBS_PER_SLICE,
                i <= n,
                i <= ENRICHMENT_JOBS_PER_SLICE ==> job_ids(head@) == ids.take(i as int) && rest@.len() == 0,
                i > ENRICHMENT_JOBS_PER_SLICE ==> job_ids(head@) == ids.take(ENRICHMENT_JOBS_PER_SLICE as int)
                    && job_ids(rest@) == ids.subrange(ENRICHMENT_JOBS_PER_SLICE as int, i as int),
            decreases n - i,
        {
            let ghost hb = head@;
            let ghost rb = rest@;
            let job = EnrichmentJob { turn_id: jobs[i].turn_id, user_text: crate::text::string_of(crate::text::chars_of(jobs[i].user_text.as_str()).as_slice()) };
            if i < ENRICHMENT_JOBS_PER_SLICE {
                head.push(job);
                assert(job_ids(head@) =~= job_ids(hb).push(ids[i as int]));
                assert(ids.take(i as int + 1) =~= ids.take(i as int).push(ids[i as int]));
            } else {
                rest.push(job);
                assert(job_ids(rest@) =~= job_ids(rb).push(ids[i as int]));
                assert(ids.subrange(ENRICHMENT_JOBS_PER_SLICE as int, i as int + 1) =~= ids.subrange(
                    ENRICHMENT_JOBS_PER_SLICE as int,
                    i as int,
                ).push(ids[i as int]));
            }
            i = i + 1;
        }
        proof {
            assert(ids.subrange(ENRICHMENT_JOBS_PER_SLICE as int, n as int) =~= ids.skip(ENRICHMENT_JOBS_PER_SLICE as int));
            let s = ids.skip(ENRICHMENT_JOBS_PER_SLICE as int);
            assert forall|a: int, b: int| 0 <= a < b < s.len() implies s[a] != s[b] by {
                assert(s[a] == ids[a + ENRICHMENT_JOBS_PER_SLICE]);
                assert(s[b] == ids[b + ENRICHMENT_JOBS_PER_SLICE]);
            }
        }
        self.pending = Some(rest);
        (head, true)
    }
}

/// When the worker next looks for work.
#[derive(Debug, Clone, Copy, PartialEq, Eq, Structural)]
pub enum FollowUp {
    /// Shortly, after `ENRICHMENT_FOLLOWUP_DELAY_MILLIS`.
    Soon,
    /// At the durable store's next retry or lease deadline.
    AtDurableDeadline,
    /// Only when woken.
    Idle,
    /// Never: no sender is left and nothing is due.
    Stop,
}

pub open spec fn follow_up_spec(
    jobs_remaining: bool,
    summary_remaining: bool,
    durable_processed: bool,
    cancelled: bool,
    durable_deadline_known: bool,
    retry_scheduled: bool,
    sole_sender: bool,
) -> FollowUp {
    if (jobs_remaining || summary_remaining || durable_processed) && !cancelled {
        FollowUp::Soon
    } else if durable_deadline_known {
        FollowUp::AtDurableDeadline
    } else if retry_scheduled && !cancelled {
        FollowUp::Soon
    } else if sole_sender {
        FollowUp::Stop
    } else {
        FollowUp::Idle
    }
}

/// After a pass: keep draining while work remains, otherwise wait for the
/// durable deadline, retry soon after a failure, stop when no sender is
/// left, or idle.
pub fn decide_follow_up(
    jobs_remaining: bool,
    summary_remaining: bool,
    durable_processed: bool,
    cancelled: bool,
    durable_deadline_known: bool,
    retry_scheduled: bool,
    sole_sender: bool,
) -> (f: FollowUp)
    ensures
        f == follow_up_spec(
            jobs_remaining,
            summary_remaining,
            durable_processed,
            cancelled,
            durable_deadline_known,
            retry_scheduled,
            sole_sender,
        ),
{
    if (jobs_remaining || summary_remaining || durable_processed) && !cancelled {
        FollowUp::Soon
    } else if durable_deadline_known {
        FollowUp::AtDurableDeadline
    } else if retry_scheduled && !cancelled {
        FollowUp::Soon
    } else if sole_sender {
        FollowUp::Stop
    } else {
        FollowUp::Idle
    }
}

/// How a wait for a wake ended.
#[derive(Debug, Clone, Copy, PartialEq, Eq, Structural)]
pub enum WaitOutcome {
    Woken,
    TimedOut,
    Disconnected,
}

/// What the worker does after waiting.
#[derive(Debug, Clone, Copy, PartialEq, Eq, Structural)]
pub enum WaitDecision {
    /// Run a pass over the pending jobs.
    Process,
    /// Queue a wake marker for the due follow-up, then run a pass.
    ProcessWithMarker,
    /// Keep waiting.
    Continue,
    Stop,
}

pub open spec fn wait_decision_spec(outcome: WaitOutcome, follow_up_due: bool, follow_up_ready: bool, sole_sender: bool) -> WaitDecision {
    match outcome {
        WaitOutcome::Woken => WaitDecision::Process,
        WaitOutcome::Disconnected => WaitDecision::Stop,
        WaitOutcome::TimedOut => if follow_up_due && follow_up_ready {
            WaitDecision::ProcessWithMarker
        } else if sole_sender && !follow_up_due {
            WaitDecision::Stop
        } else {
            WaitDecision::Continue
        },
    }
}

/// A wake starts a pass; a timeout starts one only when a follow-up is
/// due, and ends the worker when nothing is due and no sender is left.
pub fn decide_after_wait(outcome: WaitOutcome, follow_up_due: bool, follow_up_ready: bool, sole_sender: bool) -> (d: WaitDecision)
    ensures
        d == wait_decision_spec(outcome, follow_up_due, follow_up_ready, sole_sender),
{
    match outcome {
        WaitOutcome::Woken => WaitDecision::Process,
        WaitOutcome::Disconnected => WaitDecision::Stop,
        WaitOutcome::TimedOut => if follow_up_due && follow_up_ready {
            WaitDecision::ProcessWithMarker
        } else if sole_sender && !follow_up_due {
            WaitDecision::Stop
        } else {
            WaitDecision::Continue
        },
    }
}

/// The pending batch never holds a turn twice, and never more jobs than its
/// capacity: `replace_latest` keeps both properties.
pub proof fn law_pending_batch_stays_bounded_and_unique(s: EnrichmentSender)
    requires
        s.wf(),
    ensures
        s.pending_ids().len() <= ENRICHMENT_PENDING_CAPACITY,
        s.pending_ids().no_duplicates(),
{
}

} // verus!
