//! The polling scheduler: one table of due times, checked at every tick.
//!
//! The scheduler starts nothing itself. A poll says which jobs are due and
//! moves their due times on; whoever polls starts one run for each.

use vstd::prelude::*;
use crate::jobs::{JobSpec, JobSpecView};

verus! {

/// Milliseconds between two polls of the table.
pub const POLL_INTERVAL_MILLIS: u64 = 100;

/// A job with the instant at which it last became due.
#[derive(Debug, PartialEq, Eq)]
pub struct ScheduledJob {
    /// Name under which the job is started.
    pub name: String,
    /// Interval between two runs, in seconds.
    pub interval: u64,
    /// Instant at which the job last became due; the instant of
    /// registration while it has never been due.
    pub last_due: i64,
}

/// Mathematical value of a [`ScheduledJob`].
pub struct ScheduledJobView {
    pub name: Seq<char>,
    pub interval: nat,
    pub last_due: int,
}

impl ScheduledJobView {
    /// Instant at which the job becomes due next.
    pub open spec fn next_due(self) -> int {
        self.last_due + self.interval
    }

    /// Whether a poll at `now` starts the job.
    pub open spec fn is_due(self, now: int) -> bool {
        self.next_due() <= now
    }

    /// The job after a poll at `now`: a due job moves on by one interval,
    /// any other stays as it is.
    pub open spec fn polled(self, now: int) -> ScheduledJobView {
        if self.is_due(now) {
            ScheduledJobView { last_due: self.next_due(), ..self }
        } else {
            self
        }
    }
}

impl View for ScheduledJob {
    type V = ScheduledJobView;

    open spec fn view(&self) -> ScheduledJobView {
        ScheduledJobView {
            name: self.name@,
            interval: self.interval as nat,
            last_due: self.last_due as int,
        }
    }
}

/// The table of scheduled jobs.
#[derive(Debug, PartialEq, Eq)]
pub struct JobScheduler {
    /// The jobs, in the order of registration.
    pub entries: Vec<ScheduledJob>,
}

impl View for JobScheduler {
    type V = Seq<ScheduledJobView>;

    open spec fn view(&self) -> Seq<ScheduledJobView> {
        Seq::new(self.entries@.len(), |i: int| self.entries@[i]@)
    }
}

/// The table that registering `jobs` at `start` gives: every job waits one
/// full interval from `start`.
pub open spec fn registered(jobs: Seq<JobSpecView>, start: int) -> Seq<ScheduledJobView> {
    Seq::new(
        jobs.len(),
        |i: int| ScheduledJobView { name: jobs[i].name, interval: jobs[i].interval, last_due: start },
    )
}

/// Positions among the first `upto` entries of the jobs that are due at
/// `now`, in ascending order.
pub open spec fn due_positions(entries: Seq<ScheduledJobView>, now: int, upto: int) -> Seq<usize>
    decreases upto,
{
    if upto <= 0 {
        Seq::empty()
    } else if entries[upto - 1].is_due(now) {
        due_positions(entries, now, upto - 1).push((upto - 1) as usize)
    } else {
        due_positions(entries, now, upto - 1)
    }
}

/// The table after a poll at `now`.
pub open spec fn after_poll(entries: Seq<ScheduledJobView>, now: int) -> Seq<ScheduledJobView> {
    Seq::new(entries.len(), |i: int| entries[i].polled(now))
}

/// `due_positions` lists exactly the due jobs, each once, in ascending
/// order.
pub proof fn lemma_due_positions(entries: Seq<ScheduledJobView>, now: int, upto: int)
    requires
        0 <= upto <= entries.len(),
        entries.len() <= usize::MAX,
    ensures
        forall|k: int|
            0 <= k < due_positions(entries, now, upto).len() ==> {
                let p = #[trigger] due_positions(entries, now, upto)[k];
                0 <= p < upto && entries[p as int].is_due(now)
            },
        forall|k: int, l: int|
            0 <= k < l < due_positions(entries, now, upto).len() ==> due_positions(
                entries,
                now,
                upto,
            )[k] < due_positions(entries, now, upto)[l],
        forall|p: int|
            0 <= p < upto && entries[p].is_due(now) ==> due_positions(entries, now, upto).contains(
                p as usize,
            ),
    decreases upto,
{
    if upto > 0 {
        lemma_due_positions(entries, now, upto - 1);
        let before = due_positions(entries, now, upto - 1);
        let all = due_positions(entries, now, upto);
        if entries[upto - 1].is_due(now) {
            assert(all == before.push((upto - 1) as usize));
            assert(all[before.len() as int] == (upto - 1) as usize);
            assert forall|p: int| 0 <= p < upto && entries[p].is_due(now) implies all.contains(
                p as usize,
            ) by {
                if p < upto - 1 {
                    let k = choose|k: int| 0 <= k < before.len() && before[k] == p as usize;
                    assert(all[k] == p as usize);
                }
            }
        }
    }
}

/// No job is started before its interval has elapsed: at an instant before
/// `start` plus its interval, a job registered at `start` is not due.
pub proof fn lemma_not_due_before_interval(jobs: Seq<JobSpecView>, start: int, now: int, i: int)
    requires
        0 <= i < jobs.len(),
        now < start + jobs[i].interval,
    ensures
        !registered(jobs, start)[i].is_due(now),
        after_poll(registered(jobs, start), now)[i] == registered(jobs, start)[i],
{
}

/// A job that a poll started is not due again before a further interval
/// has elapsed since the instant at which it was due.
pub proof fn lemma_due_again_after_interval(job: ScheduledJobView, now: int, later: int)
    requires
        job.is_due(now),
        later < job.next_due() + job.interval,
    ensures
        !job.polled(now).is_due(later),
{
}

/// The job after a poll at each instant of `times`, in order.
pub open spec fn polled_through(job: ScheduledJobView, times: Seq<int>) -> ScheduledJobView
    decreases times.len(),
{
    if times.len() == 0 {
        job
    } else {
        polled_through(job.polled(times[0]), times.drop_first())
    }
}

/// Number of the polls at the instants of `times` that start the job.
pub open spec fn starts(job: ScheduledJobView, times: Seq<int>) -> nat
    decreases times.len(),
{
    if times.len() == 0 {
        0
    } else {
        let rest = starts(job.polled(times[0]), times.drop_first());
        if job.is_due(times[0]) {
            rest + 1
        } else {
            rest
        }
    }
}

/// Whether the polls never come later than the job's interval after the
/// one before, nor earlier than it.
pub open spec fn keeps_pace(job: ScheduledJobView, times: Seq<int>) -> bool {
    forall|i: int, j: int|
        0 <= i && j == i + 1 && j < times.len() ==> #[trigger] times[i] <= #[trigger] times[j]
            <= times[i] + job.interval
}

/// Every start takes a full interval: polls up to the instant `horizon`
/// start a job `k` times only if `k` intervals have elapsed by then since
/// it was last due, and they move its due time on by `k` intervals.
pub proof fn lemma_starts_take_their_intervals(job: ScheduledJobView, times: Seq<int>, horizon: int)
    requires
        forall|i: int| 0 <= i < times.len() ==> times[i] <= horizon,
    ensures
        polled_through(job, times).last_due == job.last_due + starts(job, times) * job.interval,
        polled_through(job, times).interval == job.interval,
        starts(job, times) > 0 ==> job.last_due + starts(job, times) * job.interval <= horizon,
    decreases times.len(),
{
    if times.len() > 0 {
        let next = job.polled(times[0]);
        let rest = times.drop_first();
        lemma_starts_take_their_intervals(next, rest, horizon);
        let later = starts(next, rest);
        assert((later + 1) * job.interval == later * job.interval + job.interval)
            by (nonlinear_arith);
    } else {
        let none = starts(job, times);
        assert(none * job.interval == 0) by (nonlinear_arith)
            requires
                none == 0,
        ;
    }
}

/// Polling that keeps pace with a job never falls behind: after the last
/// poll the job is not due any more.
pub proof fn lemma_polling_keeps_up(job: ScheduledJobView, times: Seq<int>)
    requires
        times.len() > 0,
        job.interval > 0,
        times[0] < job.next_due() + job.interval,
        keeps_pace(job, times),
    ensures
        polled_through(job, times).next_due() > times.last(),
    decreases times.len(),
{
    let next = job.polled(times[0]);
    let rest = times.drop_first();
    if rest.len() > 0 {
        lemma_polling_keeps_up(next, rest);
    } else {
        assert(polled_through(next, rest) == next);
    }
}

/// How often a job has been started by a given instant.
///
/// Polls that begin no earlier than the job's registration, keep pace
/// with its interval and end at the instant `times.last()` have started
/// the job once for every full interval that has elapsed by then, and
/// never before an interval was full. With intervals of one and of two
/// hours from the instant 0, polls that end two hours and a minute later
/// have started the first job twice and the second once.
pub proof fn lemma_one_start_per_elapsed_interval(job: ScheduledJobView, times: Seq<int>)
    requires
        times.len() > 0,
        job.interval > 0,
        job.last_due <= times[0] < job.next_due() + job.interval,
        keeps_pace(job, times),
    ensures
        starts(job, times) * job.interval <= times.last() - job.last_due < (starts(job, times)
            + 1) * job.interval,
{
    let horizon = times.last();
    assert forall|i: int| 0 <= i < times.len() implies times[i] <= horizon by {
        lemma_ascending(job, times, i, times.len() - 1);
    }
    lemma_starts_take_their_intervals(job, times, horizon);
    lemma_polling_keeps_up(job, times);
    let k = starts(job, times);
    assert((k + 1) * job.interval == k * job.interval + job.interval) by (nonlinear_arith);
    if k == 0 {
        assert(k * job.interval == 0) by (nonlinear_arith)
            requires
                k == 0,
        ;
    }
}

/// Polls that keep pace come in ascending order.
pub proof fn lemma_ascending(job: ScheduledJobView, times: Seq<int>, i: int, j: int)
    requires
        keeps_pace(job, times),
        0 <= i <= j < times.len(),
    ensures
        times[i] <= times[j],
    decreases j - i,
{
    if i < j {
        lemma_ascending(job, times, i, j - 1);
    }
}

impl JobScheduler {
    /// Registers `jobs` at the instant `start`.
    pub fn new(jobs: Vec<JobSpec>, start: i64) -> (scheduler: JobScheduler)
        ensures
            scheduler@ == registered(crate::jobs::job_views(jobs@), start as int),
    {
        let mut entries: Vec<ScheduledJob> = Vec::new();
        let mut i: usize = 0;
        while i < jobs.len()
            invariant
                i <= jobs.len(),
                entries.len() == i,
                forall|k: int|
                    0 <= k < i ==> (#[trigger] entries[k])@ == (ScheduledJobView {
                        name: jobs[k]@.name,
                        interval: jobs[k]@.interval,
                        last_due: start as int,
                    }),
            decreases jobs.len() - i,
        {
            entries.push(
                ScheduledJob { name: jobs[i].name.clone(), interval: jobs[i].interval, last_due: start },
            );
            i = i + 1;
        }
        let scheduler = JobScheduler { entries };
        scheduler
    }

    /// Registers `jobs` at the present instant, as the system clock gives
    /// it.
    pub fn start(jobs: Vec<JobSpec>) -> (scheduler: JobScheduler)
        ensures
            exists|now: i64|
                scheduler@ == #[trigger] registered(crate::jobs::job_views(jobs@), now as int),
    {
        let now = crate::clock::now();
        JobScheduler::new(jobs, now)
    }

    /// Number of jobs in the table.
    pub fn len(&self) -> (n: usize)
        ensures
            n == self@.len(),
    {
        self.entries.len()
    }

    /// Instant at which the job at `position` becomes due next, or `None`
    /// where the table has no such position.
    pub fn next_due(&self, position: usize) -> (due: Option<i128>)
        ensures
            due == if position < self@.len() {
                Some(self@[position as int].next_due() as i128)
            } else {
                None
            },
    {
        if position < self.entries.len() {
            Some(self.entries[position].last_due as i128 + self.entries[position].interval as i128)
        } else {
            None
        }
    }

    /// Polls the table at the instant `now`.
    ///
    /// Returns the positions of the jobs that are due, in ascending order:
    /// the caller starts exactly one run of each. Their due times move on by
    /// one interval; a job that was behind by more than one interval is due
    /// again at the next poll.
    pub fn run_pending(&mut self, now: i64) -> (started: Vec<usize>)
        ensures
            started@ == due_positions(old(self)@, now as int, old(self)@.len() as int),
            final(self)@ == after_poll(old(self)@, now as int),
    {
        let mut started: Vec<usize> = Vec::new();
        let n = self.entries.len();
        let mut i: usize = 0;
        while i < n
            invariant
                i <= n,
                n == self.entries.len(),
                n == old(self).entries.len(),
                started@ == due_positions(old(self)@, now as int, i as int),
                forall|k: int| 0 <= k < i ==> (#[trigger] self.entries[k])@ == old(self)@[k].polled(now as int),
                forall|k: int| i <= k < n ==> (#[trigger] self.entries[k]) == old(self).entries[k],
            decreases n - i,
        {
            let due_at = self.entries[i].last_due as i128 + self.entries[i].interval as i128;
            if due_at <= now as i128 {
                let name = self.entries[i].name.clone();
                let interval = self.entries[i].interval;
                self.entries.set(i, ScheduledJob { name, interval, last_due: due_at as i64 });
                started.push(i);
            }
            i = i + 1;
        }
        started
    }

    /// Polls the table at the present instant, as the system clock gives
    /// it. The poll is one of [`JobScheduler::run_pending`], at whatever
    /// instant the clock showed.
    pub fn tick(&mut self) -> (started: Vec<usize>)
        ensures
            exists|now: i64|
                started@ == #[trigger] due_positions(
                    old(self)@,
                    now as int,
                    old(self)@.len() as int,
                ) && final(self)@ == after_poll(old(self)@, now as int),
    {
        let now = crate::clock::now();
        self.run_pending(now)
    }
}

} // verus!
