//! The lifecycle tracker: the table of job runs and the sweep over it.
//!
//! [`SagaLifecycleTracker`] keeps, in memory, the runs that the execution
//! engine knows and the record of each. Its sweep drives the state
//! machine of [`crate::sweep`] against that table; what the sweep amounts
//! to is stated by [`cleaned`], without reference to the machine.

use vstd::prelude::*;
use vstd::string::*;
use crate::runs::{run_view, JobRun, JobRunView};
use crate::sweep::{
    begin,
    step,
    text_views,
    CleanupReport,
    CleanupReportView,
    SweepAction,
    SweepActionView,
    SweepEvent,
    SweepState,
    SweepStateView,
};

verus! {

/// Views of the runs held by `runs`, in order.
pub open spec fn run_views(runs: Seq<JobRun>) -> Seq<JobRunView> {
    Seq::new(runs.len(), |i: int| runs[i]@)
}

/// Position of the first record at or after `from` of the run `run_id`.
pub open spec fn record_from(runs: Seq<JobRunView>, run_id: Seq<char>, from: int) -> Option<int>
    decreases runs.len() - from,
{
    if from < 0 || from >= runs.len() {
        None
    } else if runs[from].run_id == run_id {
        Some(from)
    } else {
        record_from(runs, run_id, from + 1)
    }
}

/// Position of the record of the run `run_id`: the first that bears the
/// identifier.
pub open spec fn record_of(runs: Seq<JobRunView>, run_id: Seq<char>) -> Option<int> {
    record_from(runs, run_id, 0)
}

/// The table after `run` was written over the record of its identifier. A
/// table without such a record stays as it is.
pub open spec fn rewritten(runs: Seq<JobRunView>, run: JobRunView) -> Seq<JobRunView> {
    match record_of(runs, run.run_id) {
        Some(i) => runs.update(i, run),
        None => runs,
    }
}

/// The table and the report after a sweep over the listed runs from
/// `position` on, of which those before `limit` are looked at.
///
/// The record of each run, where there is one and it is not completed, is
/// completed as cancelled at `now`, and the run is reported. Every other
/// record stays as it is.
pub open spec fn cleaned(
    runs: Seq<JobRunView>,
    handles: Seq<Seq<char>>,
    position: nat,
    limit: nat,
    report: CleanupReportView,
    now: i64,
) -> (Seq<JobRunView>, CleanupReportView)
    decreases handles.len() - position,
{
    if position >= handles.len() || position >= limit {
        (runs, report)
    } else {
        match record_of(runs, handles[position as int]) {
            Some(i) => if runs[i].is_completed() {
                cleaned(runs, handles, position + 1, limit, report, now)
            } else {
                cleaned(
                    runs.update(i, runs[i].cancelled(now)),
                    handles,
                    position + 1,
                    limit,
                    report.with_cancelled(runs[i].run_id),
                    now,
                )
            },
            None => cleaned(runs, handles, position + 1, limit, report, now),
        }
    }
}

/// What `record_from` finds is the first record of the run, and it finds
/// one whenever there is one.
pub proof fn lemma_record_from(runs: Seq<JobRunView>, run_id: Seq<char>, from: int)
    requires
        0 <= from <= runs.len(),
    ensures
        match record_from(runs, run_id, from) {
            Some(i) => from <= i < runs.len() && runs[i].run_id == run_id && forall|j: int|
                from <= j < i ==> runs[j].run_id != run_id,
            None => forall|j: int| from <= j < runs.len() ==> runs[j].run_id != run_id,
        },
    decreases runs.len() - from,
{
    if from < runs.len() && runs[from].run_id != run_id {
        lemma_record_from(runs, run_id, from + 1);
    }
}

/// Two tables whose records bear the same identifiers, place by place,
/// have the record of each run at the same place.
pub proof fn lemma_record_of_same_ids(runs: Seq<JobRunView>, others: Seq<JobRunView>, run_id: Seq<char>)
    requires
        runs.len() == others.len(),
        forall|j: int| 0 <= j < runs.len() ==> runs[j].run_id == others[j].run_id,
    ensures
        record_of(runs, run_id) == record_of(others, run_id),
{
    lemma_record_from(runs, run_id, 0);
    lemma_record_from(others, run_id, 0);
}

/// What a sweep does to the table.
///
/// It keeps every record in its place, with its identifier. A record
/// that was completed is untouched. A record is changed only by being
/// cancelled at `now`, and so ends up completed with the conclusion
/// `Cancelled` and `now` as the instant of its completion. The record of
/// every run that the sweep looked at is completed afterwards. Nothing
/// fails in memory: the report of failures is as it was.
pub proof fn lemma_cleaned(
    runs: Seq<JobRunView>,
    handles: Seq<Seq<char>>,
    position: nat,
    limit: nat,
    report: CleanupReportView,
    now: i64,
)
    ensures
        ({
            let (after, done) = cleaned(runs, handles, position, limit, report, now);
            &&& after.len() == runs.len()
            &&& done.failed == report.failed
            &&& forall|i: int|
                0 <= i < runs.len() ==> (#[trigger] after[i]) == if runs[i].is_completed() {
                    runs[i]
                } else if after[i].is_completed() {
                    runs[i].cancelled(now)
                } else {
                    runs[i]
                }
            &&& forall|k: int, i: int|
                position <= k < handles.len() && k < limit && record_of(runs, #[trigger] handles[k])
                    == Some(i) ==> (#[trigger] after[i]).is_completed()
        }),
    decreases handles.len() - position,
{
    if position < handles.len() && position < limit {
        let run_id = handles[position as int];
        lemma_record_from(runs, run_id, 0);
        let next = match record_of(runs, run_id) {
            Some(i) => if runs[i].is_completed() {
                runs
            } else {
                runs.update(i, runs[i].cancelled(now))
            },
            None => runs,
        };
        let next_report = match record_of(runs, run_id) {
            Some(i) => if runs[i].is_completed() {
                report
            } else {
                report.with_cancelled(runs[i].run_id)
            },
            None => report,
        };
        lemma_cleaned(next, handles, position + 1, limit, next_report, now);
        let after = cleaned(runs, handles, position, limit, report, now).0;
        assert forall|k: int, i: int|
            position <= k < handles.len() && k < limit && record_of(runs, #[trigger] handles[k])
                == Some(i) implies (#[trigger] after[i]).is_completed() by {
            lemma_record_of_same_ids(runs, next, handles[k]);
        }
    }
}

/// What is left of a sweep that stands at `state` with the request
/// `action` open, as long as the two fit together.
spec fn remaining(state: SweepStateView, action: SweepActionView, runs: Seq<JobRunView>, now: i64) -> (
    Seq<JobRunView>,
    CleanupReportView,
) {
    match (state, action) {
        (
            SweepStateView::Loading { handles, position, limit, report },
            SweepActionView::LoadRun { run_id },
        ) => cleaned(runs, handles, position, limit, report, now),
        (
            SweepStateView::Updating { handles, position, limit, run_id, report },
            SweepActionView::UpdateRun { run },
        ) => cleaned(
            rewritten(runs, run),
            handles,
            position + 1,
            limit,
            if record_of(runs, run.run_id) is Some {
                report.with_cancelled(run_id)
            } else {
                report.with_failed(run_id)
            },
            now,
        ),
        (_, SweepActionView::Finish { report }) => (runs, report),
        _ => (runs, CleanupReportView::empty()),
    }
}

/// Whether `action` is the request that `state` waits on.
spec fn fits(state: SweepStateView, action: SweepActionView) -> bool {
    match (state, action) {
        (
            SweepStateView::Loading { handles, position, limit, .. },
            SweepActionView::LoadRun { run_id },
        ) => position < handles.len() && position < limit && handles[position as int] == run_id,
        (
            SweepStateView::Updating { handles, position, limit, run_id, .. },
            SweepActionView::UpdateRun { run },
        ) => position < handles.len() && position < limit && run.run_id == run_id,
        (SweepStateView::Finished, SweepActionView::Finish { .. }) => true,
        _ => false,
    }
}

/// Number of requests that a sweep at `state` may still make.
spec fn requests_left(state: SweepStateView) -> nat {
    match state {
        SweepStateView::Loading { handles, position, .. } => if position < handles.len() {
            (2 * (handles.len() - position)) as nat
        } else {
            0
        },
        SweepStateView::Updating { handles, position, .. } => if position < handles.len() {
            (2 * (handles.len() - position) - 1) as nat
        } else {
            0
        },
        SweepStateView::Finished => 0,
    }
}

/// The runs that the execution engine knows, and the record of each.
#[derive(Debug, PartialEq, Eq)]
pub struct SagaLifecycleTracker {
    /// Identifiers of the runs that the engine lists, in its order.
    pub handles: Vec<String>,
    /// The run records.
    pub runs: Vec<JobRun>,
}

impl SagaLifecycleTracker {
    /// A tracker that knows no run.
    pub fn new() -> (tracker: SagaLifecycleTracker)
        ensures
            tracker.handles@.len() == 0,
            tracker.runs@.len() == 0,
    {
        SagaLifecycleTracker { handles: Vec::new(), runs: Vec::new() }
    }

    /// Records that the job `job_name` begins a run at `now`: the engine
    /// lists the run from now on, and its record is queued.
    pub fn begin_run(&mut self, run_id: &str, job_name: &str, now: i64)
        ensures
            text_views(final(self).handles@) == text_views(old(self).handles@).push(run_id@),
            run_views(final(self).runs@) == run_views(old(self).runs@).push(
                JobRunView {
                    run_id: run_id@,
                    job_name: job_name@,
                    started_at: now as int,
                    phase: crate::runs::RunPhase::Queued,
                },
            ),
    {
        self.handles.push(String::from_str(run_id));
        self.runs.push(JobRun::queued(run_id, job_name, now));
    }

    fn locate(&self, run_id: &String) -> (found: Option<usize>)
        ensures
            match found {
                Some(i) => record_of(run_views(self.runs@), run_id@) == Some(i as int) && i
                    < self.runs.len(),
                None => record_of(run_views(self.runs@), run_id@) is None,
            },
    {
        let mut i: usize = 0;
        while i < self.runs.len()
            invariant
                i <= self.runs.len(),
                record_from(run_views(self.runs@), run_id@, 0) == record_from(
                    run_views(self.runs@),
                    run_id@,
                    i as int,
                ),
            decreases self.runs.len() - i,
        {
            if self.runs[i].run_id == *run_id {
                return Some(i);
            }
            i = i + 1;
        }
        None
    }

    /// The record of the run `run_id`, if there is one.
    pub fn get_by_run_id(&self, run_id: &str) -> (found: Option<JobRun>)
        ensures
            run_view(found) == match record_of(run_views(self.runs@), run_id@) {
                Some(i) => Some(run_views(self.runs@)[i]),
                None => None,
            },
    {
        let wanted = String::from_str(run_id);
        match self.locate(&wanted) {
            Some(i) => {
                Some(self.runs[i].clone())
            },
            None => None,
        }
    }

    /// Writes `run` over the record of its identifier. Returns whether
    /// there was such a record; without one nothing is written.
    pub fn update(&mut self, run: JobRun) -> (written: bool)
        ensures
            run_views(final(self).runs@) == rewritten(run_views(old(self).runs@), run@),
            final(self).handles == old(self).handles,
            written == record_of(run_views(old(self).runs@), run@.run_id) is Some,
    {
        match self.locate(&run.run_id) {
            Some(i) => {
                self.runs.set(i, run);
                true
            },
            None => false,
        }
    }

    /// Cancels the runs that are still open.
    ///
    /// Of the runs that the engine lists, the first `max_count` are looked
    /// at, in order. The table and the report afterwards are those of
    /// [`cleaned`].
    pub fn cleanup_all(&mut self, max_count: usize, now: i64) -> (report: CleanupReport)
        ensures
            final(self).handles == old(self).handles,
            (run_views(final(self).runs@), report@) == cleaned(
                run_views(old(self).runs@),
                text_views(old(self).handles@),
                0,
                max_count as nat,
                CleanupReportView::empty(),
                now,
            ),
    {
        let ghost goal = cleaned(
            run_views(self.runs@),
            text_views(self.handles@),
            0,
            max_count as nat,
            CleanupReportView::empty(),
            now,
        );
        let mut listed: Vec<String> = Vec::new();
        let mut k: usize = 0;
        while k < self.handles.len()
            invariant
                k <= self.handles.len(),
                listed.len() == k,
                forall|j: int| 0 <= j < k ==> (#[trigger] listed[j])@ == self.handles[j]@,
            decreases self.handles.len() - k,
        {
            listed.push(self.handles[k].clone());
            k = k + 1;
        }
        assert(text_views(listed@) =~= text_views(self.handles@));
        let begun = begin(listed, max_count);
        let mut state = begun.0;
        let mut action = begun.1;
        loop
            invariant
                self.handles == old(self).handles,
                goal == cleaned(
                    run_views(old(self).runs@),
                    text_views(old(self).handles@),
                    0,
                    max_count as nat,
                    CleanupReportView::empty(),
                    now,
                ),
                fits(state@, action@),
                remaining(state@, action@, run_views(self.runs@), now) == goal,
            decreases requests_left(state@),
        {
            proof {
                reveal_with_fuel(cleaned, 2);
                if let SweepActionView::LoadRun { run_id } = action@ {
                    lemma_record_from(run_views(self.runs@), run_id, 0);
                }
            }
            let answer = match action {
                SweepAction::LoadRun { run_id } => match self.get_by_run_id(run_id.as_str()) {
                    Some(run) => SweepEvent::RunLoaded { run },
                    None => SweepEvent::RunMissing,
                },
                SweepAction::UpdateRun { run } => if self.update(run) {
                    SweepEvent::RunUpdated
                } else {
                    SweepEvent::RunRecordUpdateFailed
                },
                SweepAction::Finish { report } => {
                    return report;
                },
                SweepAction::Halt => {
                    return CleanupReport { cancelled: Vec::new(), failed: Vec::new() };
                },
            };
            let next = step(state, answer, now);
            state = next.0;
            action = next.1;
        }
    }
}

} // verus!
