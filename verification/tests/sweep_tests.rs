use webhooky::runs::{Conclusion, JobRun, RunPhase};
use webhooky::sweep::{
    advance, begin, step, CleanupReport, SweepAction, SweepEvent, SweepState,
    SHUTDOWN_SWEEP_LIMIT,
};

fn handles(ids: &[&str]) -> Vec<String> {
    ids.iter().map(|id| id.to_string()).collect()
}

fn report(cancelled: &[&str], failed: &[&str]) -> CleanupReport {
    CleanupReport { cancelled: handles(cancelled), failed: handles(failed) }
}

fn running(id: &str) -> JobRun {
    JobRun {
        run_id: id.to_string(),
        job_name: "sync-repos".to_string(),
        started_at: 5,
        phase: RunPhase::InProgress,
    }
}

fn cancelled(id: &str, at: i64) -> JobRun {
    JobRun {
        phase: RunPhase::Completed { conclusion: Conclusion::Cancelled, completed_at: at },
        ..running(id)
    }
}

fn succeeded(id: &str) -> JobRun {
    JobRun {
        phase: RunPhase::Completed { conclusion: Conclusion::Success, completed_at: 8 },
        ..running(id)
    }
}

#[test]
fn shutdown_sweep_looks_at_a_thousand_runs_at_most() {
    assert_eq!(SHUTDOWN_SWEEP_LIMIT, 1000);
}

#[test]
fn sweep_begins_by_loading_the_first_run() {
    assert_eq!(
        begin(handles(&["a", "b"]), 10),
        (
            SweepState::Loading {
                handles: handles(&["a", "b"]),
                position: 0,
                limit: 10,
                report: report(&[], &[]),
            },
            SweepAction::LoadRun { run_id: "a".to_string() },
        )
    );
}

#[test]
fn sweep_over_no_runs_ends_at_once() {
    assert_eq!(
        begin(Vec::new(), 10),
        (SweepState::Finished, SweepAction::Finish { report: report(&[], &[]) })
    );
}

#[test]
fn sweep_with_a_limit_of_zero_ends_at_once() {
    assert_eq!(
        begin(handles(&["a"]), 0),
        (SweepState::Finished, SweepAction::Finish { report: report(&[], &[]) })
    );
}

#[test]
fn open_run_is_sent_back_cancelled() {
    let (state, _) = begin(handles(&["a", "b"]), 10);
    assert_eq!(
        step(state, SweepEvent::RunLoaded { run: running("a") }, 77),
        (
            SweepState::Updating {
                handles: handles(&["a", "b"]),
                position: 0,
                limit: 10,
                run_id: "a".to_string(),
                report: report(&[], &[]),
            },
            SweepAction::UpdateRun { run: cancelled("a", 77) },
        )
    );
}

#[test]
fn queued_run_is_sent_back_cancelled() {
    let (state, _) = begin(handles(&["a"]), 10);
    let queued = JobRun { phase: RunPhase::Queued, ..running("a") };
    let (_, action) = step(state, SweepEvent::RunLoaded { run: queued }, 77);
    assert_eq!(action, SweepAction::UpdateRun { run: cancelled("a", 77) });
}

#[test]
fn completed_run_is_passed_over() {
    let (state, _) = begin(handles(&["a", "b"]), 10);
    assert_eq!(
        step(state, SweepEvent::RunLoaded { run: succeeded("a") }, 77),
        (
            SweepState::Loading {
                handles: handles(&["a", "b"]),
                position: 1,
                limit: 10,
                report: report(&[], &[]),
            },
            SweepAction::LoadRun { run_id: "b".to_string() },
        )
    );
}

#[test]
fn missing_record_is_passed_over() {
    let (state, _) = begin(handles(&["a", "b"]), 10);
    let (_, action) = step(state, SweepEvent::RunMissing, 77);
    assert_eq!(action, SweepAction::LoadRun { run_id: "b".to_string() });
}

#[test]
fn written_record_is_reported_as_cancelled() {
    let (state, _) = begin(handles(&["a"]), 10);
    let (state, _) = step(state, SweepEvent::RunLoaded { run: running("a") }, 77);
    assert_eq!(
        step(state, SweepEvent::RunUpdated, 77),
        (SweepState::Finished, SweepAction::Finish { report: report(&["a"], &[]) })
    );
}

#[test]
fn record_that_cannot_be_written_is_reported_and_the_sweep_goes_on() {
    let (state, _) = begin(handles(&["a", "b", "c"]), 10);
    let (state, _) = step(state, SweepEvent::RunLoaded { run: running("a") }, 77);
    let (state, action) = step(state, SweepEvent::RunRecordUpdateFailed, 77);
    assert_eq!(action, SweepAction::LoadRun { run_id: "b".to_string() });
    let (state, action) = step(state, SweepEvent::RunLoaded { run: running("b") }, 78);
    assert_eq!(action, SweepAction::UpdateRun { run: cancelled("b", 78) });
    let (state, action) = step(state, SweepEvent::RunUpdated, 78);
    assert_eq!(action, SweepAction::LoadRun { run_id: "c".to_string() });
    let (state, action) = step(state, SweepEvent::RunLoaded { run: running("c") }, 79);
    assert_eq!(action, SweepAction::UpdateRun { run: cancelled("c", 79) });
    assert_eq!(
        step(state, SweepEvent::RunRecordUpdateFailed, 79),
        (SweepState::Finished, SweepAction::Finish { report: report(&["b"], &["a", "c"]) })
    );
}

#[test]
fn sweep_stops_at_its_limit() {
    let (state, _) = begin(handles(&["a", "b", "c"]), 2);
    let (state, action) = step(state, SweepEvent::RunMissing, 77);
    assert_eq!(action, SweepAction::LoadRun { run_id: "b".to_string() });
    assert_eq!(
        step(state, SweepEvent::RunMissing, 77),
        (SweepState::Finished, SweepAction::Finish { report: report(&[], &[]) })
    );
}

#[test]
fn finished_sweep_asks_for_nothing_more() {
    for event in [
        SweepEvent::RunLoaded { run: running("a") },
        SweepEvent::RunMissing,
        SweepEvent::RunUpdated,
        SweepEvent::RunRecordUpdateFailed,
    ] {
        assert_eq!(step(SweepState::Finished, event, 77), (SweepState::Finished, SweepAction::Halt));
    }
}

#[test]
fn advance_cancels_at_the_present_instant() {
    let (state, _) = begin(handles(&["a"]), 10);
    let (_, action) = advance(state, SweepEvent::RunLoaded { run: running("a") });
    match action {
        SweepAction::UpdateRun { run } => {
            assert_eq!(run.conclusion(), Some(Conclusion::Cancelled));
            assert!(run.completed_at().unwrap() > 1_600_000_000);
            assert_eq!(run.run_id, "a");
        }
        other => panic!("unexpected action {:?}", other),
    }
}
