use webhooky::runs::{Conclusion, JobRun, JobStatus, RunPhase};

#[test]
fn new_run_is_queued_without_conclusion() {
    let run = JobRun::queued("run-1", "sync-repos", 100);
    assert_eq!(
        run,
        JobRun {
            run_id: "run-1".to_string(),
            job_name: "sync-repos".to_string(),
            started_at: 100,
            phase: RunPhase::Queued,
        }
    );
    assert_eq!(run.status(), JobStatus::Queued);
    assert_eq!(run.conclusion(), None);
    assert_eq!(run.completed_at(), None);
    assert!(!run.is_completed());
}

#[test]
fn run_moves_from_queued_to_in_progress_to_completed() {
    let mut run = JobRun::queued("run-1", "sync-repos", 100);
    assert!(run.start());
    assert_eq!(run.status(), JobStatus::InProgress);
    assert_eq!(run.conclusion(), None);
    assert!(run.complete(Conclusion::Success, 250));
    assert_eq!(run.status(), JobStatus::Completed);
    assert_eq!(run.conclusion(), Some(Conclusion::Success));
    assert_eq!(run.completed_at(), Some(250));
    assert!(run.is_completed());
    assert_eq!(run.started_at, 100);
    assert_eq!(run.run_id, "run-1");
    assert_eq!(run.job_name, "sync-repos");
}

#[test]
fn start_moves_only_a_queued_run() {
    let mut run = JobRun::queued("run-1", "j", 0);
    assert!(run.start());
    assert!(!run.start());
    assert_eq!(run.status(), JobStatus::InProgress);
    run.complete(Conclusion::Failure, 9);
    assert!(!run.start());
    assert_eq!(run.phase, RunPhase::Completed { conclusion: Conclusion::Failure, completed_at: 9 });
}

#[test]
fn queued_run_may_be_completed_directly() {
    let mut run = JobRun::queued("run-1", "j", 0);
    assert!(run.complete(Conclusion::Failure, 7));
    assert_eq!(run.phase, RunPhase::Completed { conclusion: Conclusion::Failure, completed_at: 7 });
}

#[test]
fn completed_run_is_never_changed_again() {
    let mut run = JobRun::queued("run-1", "j", 0);
    run.complete(Conclusion::Success, 7);
    assert!(!run.complete(Conclusion::Failure, 8));
    assert!(!run.cancel(9));
    assert_eq!(run.phase, RunPhase::Completed { conclusion: Conclusion::Success, completed_at: 7 });
}

#[test]
fn cancel_completes_an_open_run_as_cancelled() {
    let mut queued = JobRun::queued("run-1", "j", 0);
    assert!(queued.cancel(40));
    assert_eq!(queued.status(), JobStatus::Completed);
    assert_eq!(queued.conclusion(), Some(Conclusion::Cancelled));
    assert_eq!(queued.completed_at(), Some(40));
    let mut running = JobRun::queued("run-2", "j", 0);
    running.start();
    assert!(running.cancel(41));
    assert_eq!(running.phase, RunPhase::Completed { conclusion: Conclusion::Cancelled, completed_at: 41 });
}

#[test]
fn conclusion_is_set_exactly_when_the_run_is_completed() {
    let mut run = JobRun::queued("run-1", "j", 0);
    assert_eq!(run.conclusion().is_some(), run.status() == JobStatus::Completed);
    run.start();
    assert_eq!(run.conclusion().is_some(), run.status() == JobStatus::Completed);
    run.complete(Conclusion::Success, 1);
    assert_eq!(run.conclusion().is_some(), run.status() == JobStatus::Completed);
    assert_eq!(run.completed_at().is_some(), run.status() == JobStatus::Completed);
}

#[test]
fn statuses_have_their_recorded_names() {
    assert_eq!(JobStatus::Queued.name(), "queued");
    assert_eq!(JobStatus::InProgress.name(), "in_progress");
    assert_eq!(JobStatus::Completed.name(), "completed");
    for status in [JobStatus::Queued, JobStatus::InProgress, JobStatus::Completed] {
        assert_eq!(JobStatus::parse(&status.name()), Some(status));
    }
}

#[test]
fn conclusions_have_their_recorded_names() {
    assert_eq!(Conclusion::Success.name(), "success");
    assert_eq!(Conclusion::Failure.name(), "failure");
    assert_eq!(Conclusion::Cancelled.name(), "cancelled");
    for conclusion in [Conclusion::Success, Conclusion::Failure, Conclusion::Cancelled] {
        assert_eq!(Conclusion::parse(&conclusion.name()), Some(conclusion));
    }
}

#[test]
fn unknown_names_are_no_status_and_no_conclusion() {
    assert_eq!(JobStatus::parse(""), None);
    assert_eq!(JobStatus::parse("Completed"), None);
    assert_eq!(JobStatus::parse("in progress"), None);
    assert_eq!(JobStatus::parse("success"), None);
    assert_eq!(Conclusion::parse(""), None);
    assert_eq!(Conclusion::parse("canceled"), None);
    assert_eq!(Conclusion::parse("timed_out"), None);
    assert_eq!(Conclusion::parse("completed"), None);
}

#[test]
fn open_record_is_restored_without_conclusion() {
    let run = JobRun::restore("run-1", "sync-rfds", "in_progress", "failure", 10, Some(20)).unwrap();
    assert_eq!(
        run,
        JobRun {
            run_id: "run-1".to_string(),
            job_name: "sync-rfds".to_string(),
            started_at: 10,
            phase: RunPhase::InProgress,
        }
    );
    let queued = JobRun::restore("run-2", "sync-rfds", "queued", "", 10, None).unwrap();
    assert_eq!(queued.phase, RunPhase::Queued);
}

#[test]
fn completed_record_is_restored_with_its_conclusion() {
    let run = JobRun::restore("run-1", "sync-rfds", "completed", "success", 10, Some(20)).unwrap();
    assert_eq!(run.phase, RunPhase::Completed { conclusion: Conclusion::Success, completed_at: 20 });
    let undated = JobRun::restore("run-1", "sync-rfds", "completed", "cancelled", 10, None).unwrap();
    assert_eq!(
        undated.phase,
        RunPhase::Completed { conclusion: Conclusion::Cancelled, completed_at: 10 }
    );
}

#[test]
fn record_that_describes_no_run_is_not_restored() {
    assert_eq!(JobRun::restore("run-1", "j", "done", "success", 10, Some(20)), None);
    assert_eq!(JobRun::restore("run-1", "j", "", "", 10, None), None);
    assert_eq!(JobRun::restore("run-1", "j", "completed", "", 10, Some(20)), None);
    assert_eq!(JobRun::restore("run-1", "j", "completed", "neutral", 10, Some(20)), None);
}

#[test]
fn cloned_run_equals_the_run() {
    let mut run = JobRun::queued("run-1", "j", 3);
    run.complete(Conclusion::Success, 4);
    assert_eq!(run.clone(), run);
}
