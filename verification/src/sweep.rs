//! The cleanup sweep: cancelling the runs that are still open.
//!
//! At shutdown every run that the execution engine lists and that is not
//! completed is marked as completed and cancelled. The sweep is a state
//! machine like the exchange: [`step`] takes the answer to the last
//! request and says which record to load or to write next. A record that
//! cannot be written is reported and the sweep goes on.

use vstd::prelude::*;
use vstd::string::*;
use crate::runs::{run_view, JobRun, JobRunView};

verus! {

/// Number of runs that the sweep at shutdown looks at, at most.
pub const SHUTDOWN_SWEEP_LIMIT: usize = 1000;

/// What a sweep has done.
#[derive(Debug, PartialEq, Eq)]
pub struct CleanupReport {
    /// Identifiers of the runs that were cancelled.
    pub cancelled: Vec<String>,
    /// Identifiers of the runs that should have been cancelled and whose
    /// record could not be written.
    pub failed: Vec<String>,
}

/// Mathematical value of a [`CleanupReport`].
pub struct CleanupReportView {
    pub cancelled: Seq<Seq<char>>,
    pub failed: Seq<Seq<char>>,
}

/// Views of the texts held by `texts`, in order.
pub open spec fn text_views(texts: Seq<String>) -> Seq<Seq<char>> {
    Seq::new(texts.len(), |i: int| texts[i]@)
}

impl View for CleanupReport {
    type V = CleanupReportView;

    open spec fn view(&self) -> CleanupReportView {
        CleanupReportView {
            cancelled: text_views(self.cancelled@),
            failed: text_views(self.failed@),
        }
    }
}

impl CleanupReportView {
    /// The report of a sweep that has done nothing yet.
    pub open spec fn empty() -> CleanupReportView {
        CleanupReportView { cancelled: Seq::empty(), failed: Seq::empty() }
    }

    /// The report after the run `run_id` was cancelled.
    pub open spec fn with_cancelled(self, run_id: Seq<char>) -> CleanupReportView {
        CleanupReportView { cancelled: self.cancelled.push(run_id), ..self }
    }

    /// The report after the record of the run `run_id` could not be
    /// written.
    pub open spec fn with_failed(self, run_id: Seq<char>) -> CleanupReportView {
        CleanupReportView { failed: self.failed.push(run_id), ..self }
    }
}

/// An answer of the run-record store.
#[derive(Debug, PartialEq, Eq)]
pub enum SweepEvent {
    /// The record of the run.
    RunLoaded { run: JobRun },
    /// The store has no record of the run.
    RunMissing,
    /// The record was written.
    RunUpdated,
    /// The record could not be written.
    RunRecordUpdateFailed,
}

/// Mathematical value of a [`SweepEvent`].
pub enum SweepEventView {
    RunLoaded { run: JobRunView },
    RunMissing,
    RunUpdated,
    RunRecordUpdateFailed,
}

impl View for SweepEvent {
    type V = SweepEventView;

    open spec fn view(&self) -> SweepEventView {
        match self {
            SweepEvent::RunLoaded { run } => SweepEventView::RunLoaded { run: run@ },
            SweepEvent::RunMissing => SweepEventView::RunMissing,
            SweepEvent::RunUpdated => SweepEventView::RunUpdated,
            SweepEvent::RunRecordUpdateFailed => SweepEventView::RunRecordUpdateFailed,
        }
    }
}

/// A request to the run-record store, or the end of the sweep.
#[derive(Debug, PartialEq, Eq)]
pub enum SweepAction {
    /// Load the record of the run `run_id`.
    LoadRun { run_id: String },
    /// Write the record `run`.
    UpdateRun { run: JobRun },
    /// The sweep has ended with `report`.
    Finish { report: CleanupReport },
    /// The sweep had ended before: there is nothing to do.
    Halt,
}

/// Mathematical value of a [`SweepAction`].
pub enum SweepActionView {
    LoadRun { run_id: Seq<char> },
    UpdateRun { run: JobRunView },
    Finish { report: CleanupReportView },
    Halt,
}

impl View for SweepAction {
    type V = SweepActionView;

    open spec fn view(&self) -> SweepActionView {
        match self {
            SweepAction::LoadRun { run_id } => SweepActionView::LoadRun { run_id: run_id@ },
            SweepAction::UpdateRun { run } => SweepActionView::UpdateRun { run: run@ },
            SweepAction::Finish { report } => SweepActionView::Finish { report: report@ },
            SweepAction::Halt => SweepActionView::Halt,
        }
    }
}

/// Where a sweep stands.
#[derive(Debug, PartialEq, Eq)]
pub enum SweepState {
    /// Waiting for the record of the run at `position`.
    Loading { handles: Vec<String>, position: usize, limit: usize, report: CleanupReport },
    /// Waiting for the record of the run `run_id`, listed at `position`,
    /// to be written.
    Updating {
        handles: Vec<String>,
        position: usize,
        limit: usize,
        run_id: String,
        report: CleanupReport,
    },
    /// The sweep has ended.
    Finished,
}

/// Mathematical value of a [`SweepState`].
pub enum SweepStateView {
    Loading { handles: Seq<Seq<char>>, position: nat, limit: nat, report: CleanupReportView },
    Updating {
        handles: Seq<Seq<char>>,
        position: nat,
        limit: nat,
        run_id: Seq<char>,
        report: CleanupReportView,
    },
    Finished,
}

impl View for SweepState {
    type V = SweepStateView;

    open spec fn view(&self) -> SweepStateView {
        match self {
            SweepState::Loading { handles, position, limit, report } => SweepStateView::Loading {
                handles: text_views(handles@),
                position: *position as nat,
                limit: *limit as nat,
                report: report@,
            },
            SweepState::Updating {
                handles,
                position,
                limit,
                run_id,
                report,
            } => SweepStateView::Updating {
                handles: text_views(handles@),
                position: *position as nat,
                limit: *limit as nat,
                run_id: run_id@,
                report: report@,
            },
            SweepState::Finished => SweepStateView::Finished,
        }
    }
}

/// The sweep goes on with the run at `position`, or ends where the runs
/// or the limit are exhausted.
pub open spec fn sweeping(
    handles: Seq<Seq<char>>,
    position: nat,
    limit: nat,
    report: CleanupReportView,
) -> (SweepStateView, SweepActionView) {
    if position < handles.len() && position < limit {
        (
            SweepStateView::Loading { handles, position, limit, report },
            SweepActionView::LoadRun { run_id: handles[position as int] },
        )
    } else {
        (SweepStateView::Finished, SweepActionView::Finish { report })
    }
}

/// How a sweep over the listed runs begins: it takes the first
/// `max_count` of them, in order.
pub open spec fn begun(handles: Seq<Seq<char>>, max_count: nat) -> (SweepStateView, SweepActionView) {
    sweeping(handles, 0, max_count, CleanupReportView::empty())
}

/// The next state of a sweep and its next request, given the answer to
/// the last one and the instant `now`.
///
/// A record that is loaded and not completed is cancelled at `now` and
/// sent back to be written; a record that is completed, missing, or not
/// answered for is passed over. A record that was written counts as
/// cancelled, any other answer as a failure; either way the sweep goes on
/// with the next run.
pub open spec fn stepped(state: SweepStateView, event: SweepEventView, now: i64) -> (
    SweepStateView,
    SweepActionView,
) {
    match state {
        SweepStateView::Loading { handles, position, limit, report } => match event {
            SweepEventView::RunLoaded { run } => if run.is_completed() {
                sweeping(handles, position + 1, limit, report)
            } else {
                (
                    SweepStateView::Updating { handles, position, limit, run_id: run.run_id, report },
                    SweepActionView::UpdateRun { run: run.cancelled(now) },
                )
            },
            _ => sweeping(handles, position + 1, limit, report),
        },
        SweepStateView::Updating { handles, position, limit, run_id, report } => match event {
            SweepEventView::RunUpdated => sweeping(
                handles,
                position + 1,
                limit,
                report.with_cancelled(run_id),
            ),
            _ => sweeping(handles, position + 1, limit, report.with_failed(run_id)),
        },
        SweepStateView::Finished => (SweepStateView::Finished, SweepActionView::Halt),
    }
}

/// No answer stops a sweep short: a record that is passed over, written
/// or not written, the sweep goes on with the run after it, and ends only
/// where the runs or the limit are exhausted. A record that could not be
/// written is reported as failed and nothing else is.
pub proof fn lemma_sweep_goes_on(state: SweepStateView, event: SweepEventView, now: i64)
    ensures
        match state {
            SweepStateView::Loading { handles, position, limit, report } => stepped(
                state,
                event,
                now,
            ).1 is UpdateRun || stepped(state, event, now) == sweeping(
                handles,
                position + 1,
                limit,
                report,
            ),
            SweepStateView::Updating { handles, position, limit, run_id, report } => stepped(
                state,
                event,
                now,
            ) == sweeping(
                handles,
                position + 1,
                limit,
                if event is RunUpdated {
                    report.with_cancelled(run_id)
                } else {
                    report.with_failed(run_id)
                },
            ),
            SweepStateView::Finished => stepped(state, event, now) == (
                SweepStateView::Finished,
                SweepActionView::Halt,
            ),
        },
{
}

/// Only a record that is not completed is sent back to be written, and it
/// is sent back completed as cancelled at `now`.
pub proof fn lemma_only_open_runs_are_cancelled(state: SweepStateView, event: SweepEventView, now: i64)
    ensures
        stepped(state, event, now).1 matches SweepActionView::UpdateRun { run } ==> {
            &&& state is Loading
            &&& event matches SweepEventView::RunLoaded { run: loaded }
            &&& !loaded.is_completed()
            &&& run == loaded.cancelled(now)
            &&& run.phase == (crate::runs::RunPhase::Completed {
                conclusion: crate::runs::Conclusion::Cancelled,
                completed_at: now,
            })
        },
{
}

fn sweep_on(handles: Vec<String>, position: usize, limit: usize, report: CleanupReport) -> (next: (
    SweepState,
    SweepAction,
))
    ensures
        (next.0@, next.1@) == sweeping(text_views(handles@), position as nat, limit as nat, report@),
{
    if position < handles.len() && position < limit {
        let run_id = handles[position].clone();
        (SweepState::Loading { handles, position, limit, report }, SweepAction::LoadRun { run_id })
    } else {
        (SweepState::Finished, SweepAction::Finish { report })
    }
}

/// Begins a sweep over the runs that the engine listed, of which at most
/// `max_count` are looked at.
pub fn begin(handles: Vec<String>, max_count: usize) -> (next: (SweepState, SweepAction))
    ensures
        (next.0@, next.1@) == begun(text_views(handles@), max_count as nat),
{
    let report = CleanupReport { cancelled: Vec::new(), failed: Vec::new() };
    assert(report@.cancelled =~= Seq::empty() && report@.failed =~= Seq::empty());
    sweep_on(handles, 0, max_count, report)
}

/// Advances a sweep by one answer. See [`stepped`].
pub fn step(state: SweepState, event: SweepEvent, now: i64) -> (next: (SweepState, SweepAction))
    ensures
        (next.0@, next.1@) == stepped(state@, event@, now),
{
    match state {
        SweepState::Loading { handles, position, limit, report } => {
            match event {
                SweepEvent::RunLoaded { run } => {
                    let mut run = run;
                    if run.cancel(now) {
                        let run_id = run.run_id.clone();
                        return (
                            SweepState::Updating { handles, position, limit, run_id, report },
                            SweepAction::UpdateRun { run },
                        );
                    }
                },
                _ => {},
            }
            if position < usize::MAX {
                sweep_on(handles, position + 1, limit, report)
            } else {
                (SweepState::Finished, SweepAction::Finish { report })
            }
        },
        SweepState::Updating { handles, position, limit, run_id, report } => {
            let mut report = report;
            let ghost before = report@;
            match event {
                SweepEvent::RunUpdated => {
                    report.cancelled.push(run_id);
                    assert(report@.cancelled =~= before.cancelled.push(run_id@));
                },
                _ => {
                    report.failed.push(run_id);
                    assert(report@.failed =~= before.failed.push(run_id@));
                },
            }
            if position < usize::MAX {
                sweep_on(handles, position + 1, limit, report)
            } else {
                (SweepState::Finished, SweepAction::Finish { report })
            }
        },
        SweepState::Finished => (SweepState::Finished, SweepAction::Halt),
    }
}

/// Advances a sweep by one answer at the present instant, as the system
/// clock gives it. The step is one of [`stepped`], at whatever instant
/// the clock showed.
pub fn advance(state: SweepState, event: SweepEvent) -> (next: (SweepState, SweepAction))
    ensures
        exists|now: i64| (next.0@, next.1@) == #[trigger] stepped(state@, event@, now),
{
    let now = crate::clock::now();
    step(state, event, now)
}

} // verus!
