//! The metrics snapshot: per-queue job and agent counts fetched from the
//! upstream queue API, and the lookups the scaling decisions are made from.

use vstd::prelude::*;

verus! {

/// Job counts observed for one named queue.
#[derive(Clone, Copy, Debug, PartialEq, Eq, Structural)]
pub struct JobQueue {
    pub scheduled: i64,
    pub running: i64,
    pub waiting: i64,
    pub total: i64,
}

impl JobQueue {
    /// Counts as upstream reports them: non-negative, with the runnable sum
    /// (waiting + scheduled) representable as an `i64`.
    pub open spec fn valid(self) -> bool {
        &&& 0 <= self.scheduled
        &&& 0 <= self.running
        &&& 0 <= self.waiting
        &&& 0 <= self.total
        &&& self.waiting + self.scheduled <= i64::MAX
    }
}

/// Aggregate job counts plus the per-queue breakdown, keyed by queue name.
/// A queue absent from `queues` is defined to have all-zero counts.
#[derive(Debug)]
pub struct JobMetrics {
    pub scheduled: i64,
    pub running: i64,
    pub waiting: i64,
    pub total: i64,
    pub queues: Vec<(String, JobQueue)>,
}

/// Agent counts observed for one named queue.
#[derive(Clone, Copy, Debug, PartialEq, Eq, Structural)]
pub struct AgentQueue {
    pub idle: i64,
    pub busy: i64,
    pub total: i64,
}

/// Aggregate agent counts plus the per-queue breakdown, keyed by queue name.
#[derive(Debug)]
pub struct AgentMetrics {
    pub idle: i64,
    pub busy: i64,
    pub total: i64,
    pub queues: Vec<(String, AgentQueue)>,
}

/// The upstream account the snapshot belongs to; informational only.
#[derive(Debug)]
pub struct Organization {
    pub slug: String,
}

/// One point-in-time snapshot of upstream job and agent counts; the sole
/// data source for a scaling decision, never mutated.
#[derive(Debug)]
pub struct Metrics {
    pub jobs: JobMetrics,
    pub agents: AgentMetrics,
    pub organization: Organization,
}

/// First entry of `queues` named `name`, searching from index `i`.
pub open spec fn queue_lookup_from(queues: Seq<(String, JobQueue)>, name: Seq<char>, i: int) -> Option<
    JobQueue,
>
    decreases queues.len() - i,
{
    if i < 0 || i >= queues.len() {
        None
    } else if queues[i].0@ == name {
        Some(queues[i].1)
    } else {
        queue_lookup_from(queues, name, i + 1)
    }
}

/// The job counts recorded for queue `name`, if any.
pub open spec fn queue_lookup(queues: Seq<(String, JobQueue)>, name: Seq<char>) -> Option<JobQueue> {
    queue_lookup_from(queues, name, 0)
}

impl Metrics {
    /// Whether the snapshot reports any job counts for queue `name`.
    pub open spec fn has_queue(self, name: Seq<char>) -> bool {
        queue_lookup(self.jobs.queues@, name) is Some
    }

    /// Jobs waiting in queue `name`; zero when the queue is absent.
    pub open spec fn spec_waiting(self, name: Seq<char>) -> int {
        match queue_lookup(self.jobs.queues@, name) {
            Some(q) => q.waiting as int,
            None => 0,
        }
    }

    /// Jobs scheduled in queue `name`; zero when the queue is absent.
    pub open spec fn spec_scheduled(self, name: Seq<char>) -> int {
        match queue_lookup(self.jobs.queues@, name) {
            Some(q) => q.scheduled as int,
            None => 0,
        }
    }

    /// Runnable jobs of queue `name`: waiting plus scheduled, zero when the
    /// queue is absent.
    pub open spec fn spec_runnable(self, name: Seq<char>) -> int {
        self.spec_waiting(name) + self.spec_scheduled(name)
    }

    /// Every per-queue job count is as upstream reports it (see
    /// [`JobQueue::valid`]).
    pub open spec fn wf(self) -> bool {
        forall|i: int|
            0 <= i < self.jobs.queues@.len() ==> (#[trigger] self.jobs.queues@[i].1).valid()
    }
}

/// For all queue names a snapshot does not report, the runnable count is
/// zero: an unknown queue reads as idle, never as an error.
pub proof fn lemma_absent_queue_runnable_zero(m: Metrics, name: Seq<char>)
    requires
        !m.has_queue(name),
    ensures
        m.spec_runnable(name) == 0,
{
}

proof fn lemma_lookup_from_valid(m: Metrics, name: Seq<char>, i: int)
    requires
        m.wf(),
        0 <= i,
    ensures
        queue_lookup_from(m.jobs.queues@, name, i) matches Some(q) ==> q.valid(),
    decreases m.jobs.queues@.len() - i,
{
    if i < m.jobs.queues@.len() && m.jobs.queues@[i].0@ != name {
        lemma_lookup_from_valid(m, name, i + 1);
    }
}

/// Under a well-formed snapshot, waiting and scheduled counts are
/// non-negative and the runnable count fits an `i64`.
pub proof fn lemma_runnable_in_range(m: Metrics, name: Seq<char>)
    requires
        m.wf(),
    ensures
        0 <= m.spec_waiting(name),
        0 <= m.spec_scheduled(name),
        0 <= m.spec_runnable(name) <= i64::MAX,
{
    lemma_lookup_from_valid(m, name, 0);
}

impl Metrics {
    /// The job counts recorded for `queue`, or `None` when the snapshot does
    /// not report that queue.
    pub fn get_job_queue(&self, queue: &str) -> (r: Option<&JobQueue>)
        ensures
            match r {
                Some(q) => queue_lookup(self.jobs.queues@, queue@) == Some(*q),
                None => queue_lookup(self.jobs.queues@, queue@) is None,
            },
    {
        let key: String = queue.to_owned();
        let n = self.jobs.queues.len();
        let mut i: usize = 0;
        while i < n
            invariant
                i <= n,
                n == self.jobs.queues@.len(),
                key@ == queue@,
                queue_lookup(self.jobs.queues@, queue@) == queue_lookup_from(
                    self.jobs.queues@,
                    queue@,
                    i as int,
                ),
            decreases n - i,
        {
            if self.jobs.queues[i].0 == key {
                return Some(&self.jobs.queues[i].1);
            }
            i = i + 1;
        }
        None
    }

    /// Jobs waiting in `queue`; zero when the snapshot does not report it.
    pub fn job_queue_waiting(&self, queue: &str) -> (w: i64)
        ensures
            w == self.spec_waiting(queue@),
    {
        match self.get_job_queue(queue) {
            Some(q) => q.waiting,
            None => 0,
        }
    }

    /// Jobs scheduled in `queue`; zero when the snapshot does not report it.
    pub fn job_queue_scheduled(&self, queue: &str) -> (s: i64)
        ensures
            s == self.spec_scheduled(queue@),
    {
        match self.get_job_queue(queue) {
            Some(q) => q.scheduled,
            None => 0,
        }
    }

    /// Runnable jobs of `queue`: waiting plus scheduled, zero when the
    /// snapshot does not report the queue.
    pub fn job_queue_runnable(&self, queue: &str) -> (r: i64)
        requires
            self.wf(),
        ensures
            r == self.spec_runnable(queue@),
    {
        proof {
            lemma_runnable_in_range(*self, queue@);
        }
        self.job_queue_waiting(queue) + self.job_queue_scheduled(queue)
    }
}

} // verus!
