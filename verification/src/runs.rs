//! Job runs: the durable record of one execution of a job.
//!
//! A run is queued, then in progress, then completed with a conclusion.
//! The conclusion and the instant of completion are part of the completed
//! phase itself, so that a run has a conclusion exactly when it is
//! completed.

use vstd::prelude::*;
use vstd::string::*;

verus! {

/// Whether a run waits, runs or has ended.
#[derive(Clone, Copy, Debug, PartialEq, Eq, Structural)]
pub enum JobStatus {
    Queued,
    InProgress,
    Completed,
}

/// How a completed run ended.
#[derive(Clone, Copy, Debug, PartialEq, Eq, Structural)]
pub enum Conclusion {
    Success,
    Failure,
    Cancelled,
}

/// The name under which a status is recorded.
pub open spec fn status_name(status: JobStatus) -> Seq<char> {
    match status {
        JobStatus::Queued => "queued"@,
        JobStatus::InProgress => "in_progress"@,
        JobStatus::Completed => "completed"@,
    }
}

/// The name under which a conclusion is recorded.
pub open spec fn conclusion_name(conclusion: Conclusion) -> Seq<char> {
    match conclusion {
        Conclusion::Success => "success"@,
        Conclusion::Failure => "failure"@,
        Conclusion::Cancelled => "cancelled"@,
    }
}

/// The status recorded under `name`, if it is the name of one.
pub open spec fn status_named(name: Seq<char>) -> Option<JobStatus> {
    if name == status_name(JobStatus::Queued) {
        Some(JobStatus::Queued)
    } else if name == status_name(JobStatus::InProgress) {
        Some(JobStatus::InProgress)
    } else if name == status_name(JobStatus::Completed) {
        Some(JobStatus::Completed)
    } else {
        None
    }
}

/// The conclusion recorded under `name`, if it is the name of one.
pub open spec fn conclusion_named(name: Seq<char>) -> Option<Conclusion> {
    if name == conclusion_name(Conclusion::Success) {
        Some(Conclusion::Success)
    } else if name == conclusion_name(Conclusion::Failure) {
        Some(Conclusion::Failure)
    } else if name == conclusion_name(Conclusion::Cancelled) {
        Some(Conclusion::Cancelled)
    } else {
        None
    }
}

/// No two statuses and no two conclusions share a name: each is read back
/// from its own name, and a name that is read names what it was read as.
pub proof fn lemma_names_read_back()
    ensures
        forall|status: JobStatus| #[trigger] status_named(status_name(status)) == Some(status),
        forall|conclusion: Conclusion| #[trigger]
            conclusion_named(conclusion_name(conclusion)) == Some(conclusion),
        forall|name: Seq<char>| #[trigger]
            status_named(name) matches Some(status) ==> status_name(status) == name,
        forall|name: Seq<char>| #[trigger]
            conclusion_named(name) matches Some(conclusion) ==> conclusion_name(conclusion) == name,
{
    reveal_strlit("queued");
    reveal_strlit("in_progress");
    reveal_strlit("completed");
    reveal_strlit("success");
    reveal_strlit("failure");
    reveal_strlit("cancelled");
    assert("queued"@.len() == 6 && "in_progress"@.len() == 11 && "completed"@.len() == 9);
    assert("success"@[0] != "failure"@[0] && "cancelled"@.len() == 9 && "success"@.len() == 7);
}

impl JobStatus {
    /// The name under which the status is recorded.
    pub fn name(&self) -> (name: String)
        ensures
            name@ == status_name(*self),
    {
        match self {
            JobStatus::Queued => String::from_str("queued"),
            JobStatus::InProgress => String::from_str("in_progress"),
            JobStatus::Completed => String::from_str("completed"),
        }
    }

    /// The status recorded under `name`, if it is the name of one.
    pub fn parse(name: &str) -> (status: Option<JobStatus>)
        ensures
            status == status_named(name@),
    {
        let name = String::from_str(name);
        if name == JobStatus::Queued.name() {
            Some(JobStatus::Queued)
        } else if name == JobStatus::InProgress.name() {
            Some(JobStatus::InProgress)
        } else if name == JobStatus::Completed.name() {
            Some(JobStatus::Completed)
        } else {
            None
        }
    }
}

impl Conclusion {
    /// The name under which the conclusion is recorded.
    pub fn name(&self) -> (name: String)
        ensures
            name@ == conclusion_name(*self),
    {
        match self {
            Conclusion::Success => String::from_str("success"),
            Conclusion::Failure => String::from_str("failure"),
            Conclusion::Cancelled => String::from_str("cancelled"),
        }
    }

    /// The conclusion recorded under `name`, if it is the name of one.
    pub fn parse(name: &str) -> (conclusion: Option<Conclusion>)
        ensures
            conclusion == conclusion_named(name@),
    {
        let name = String::from_str(name);
        if name == Conclusion::Success.name() {
            Some(Conclusion::Success)
        } else if name == Conclusion::Failure.name() {
            Some(Conclusion::Failure)
        } else if name == Conclusion::Cancelled.name() {
            Some(Conclusion::Cancelled)
        } else {
            None
        }
    }
}

/// The phase of a run, with what belongs to it.
#[derive(Clone, Copy, Debug, PartialEq, Eq, Structural)]
pub enum RunPhase {
    Queued,
    InProgress,
    Completed { conclusion: Conclusion, completed_at: i64 },
}

impl RunPhase {
    /// The status of a run in this phase.
    pub open spec fn status(self) -> JobStatus {
        match self {
            RunPhase::Queued => JobStatus::Queued,
            RunPhase::InProgress => JobStatus::InProgress,
            RunPhase::Completed { .. } => JobStatus::Completed,
        }
    }

    /// The conclusion of a run in this phase, if it has one.
    pub open spec fn conclusion(self) -> Option<Conclusion> {
        match self {
            RunPhase::Completed { conclusion, .. } => Some(conclusion),
            _ => None,
        }
    }

    /// The instant at which a run in this phase was completed, if it was.
    pub open spec fn completed_at(self) -> Option<i64> {
        match self {
            RunPhase::Completed { completed_at, .. } => Some(completed_at),
            _ => None,
        }
    }

    /// The phase after the run was asked to start: a queued run is in
    /// progress, any other stays where it is.
    pub open spec fn started(self) -> RunPhase {
        match self {
            RunPhase::Queued => RunPhase::InProgress,
            _ => self,
        }
    }

    /// The phase after the run was asked to end with `conclusion` at
    /// `now`: a completed run stays as it is, any other is completed.
    pub open spec fn completed(self, conclusion: Conclusion, now: i64) -> RunPhase {
        match self {
            RunPhase::Completed { .. } => self,
            _ => RunPhase::Completed { conclusion, completed_at: now },
        }
    }
}

/// A run has a conclusion, and an instant of completion, exactly when it
/// is completed.
pub proof fn lemma_conclusion_iff_completed(phase: RunPhase)
    ensures
        phase.conclusion() is Some <==> phase.status() == JobStatus::Completed,
        phase.completed_at() is Some <==> phase.status() == JobStatus::Completed,
{
}

/// A run only moves forward: from queued to in progress to completed, and
/// a completed run is never changed again.
pub proof fn lemma_phases_move_forward(phase: RunPhase, conclusion: Conclusion, now: i64)
    ensures
        phase.started().status() != JobStatus::Queued,
        phase.status() == JobStatus::Completed ==> phase.started() == phase && phase.completed(
            conclusion,
            now,
        ) == phase,
        phase.completed(conclusion, now).status() == JobStatus::Completed,
        phase.status() != JobStatus::Completed ==> phase.completed(conclusion, now) == (
        RunPhase::Completed { conclusion, completed_at: now }),
{
}

/// The record of one execution of a job.
#[derive(Debug, PartialEq, Eq)]
pub struct JobRun {
    /// Identifier of the run, stable for its lifetime.
    pub run_id: String,
    pub job_name: String,
    pub started_at: i64,
    pub phase: RunPhase,
}

/// Mathematical value of a [`JobRun`].
pub struct JobRunView {
    pub run_id: Seq<char>,
    pub job_name: Seq<char>,
    pub started_at: int,
    pub phase: RunPhase,
}

impl JobRunView {
    /// Whether the run is completed.
    pub open spec fn is_completed(self) -> bool {
        self.phase.status() == JobStatus::Completed
    }

    /// The run after it was cancelled at `now`.
    pub open spec fn cancelled(self, now: i64) -> JobRunView {
        JobRunView { phase: self.phase.completed(Conclusion::Cancelled, now), ..self }
    }
}

impl View for JobRun {
    type V = JobRunView;

    open spec fn view(&self) -> JobRunView {
        JobRunView {
            run_id: self.run_id@,
            job_name: self.job_name@,
            started_at: self.started_at as int,
            phase: self.phase,
        }
    }
}

impl Clone for JobRun {
    fn clone(&self) -> (copy: Self)
        ensures
            copy == *self,
    {
        JobRun {
            run_id: self.run_id.clone(),
            job_name: self.job_name.clone(),
            started_at: self.started_at,
            phase: self.phase,
        }
    }
}

/// A run as a mathematical value, where there is one.
pub open spec fn run_view(run: Option<JobRun>) -> Option<JobRunView> {
    match run {
        Some(r) => Some(r@),
        None => None,
    }
}

/// The phase that a record describes, if the record describes one.
///
/// The status must be the name of a status. A record that is not
/// completed has no conclusion, whatever it says of one. A completed
/// record needs the name of a conclusion; where it lacks the instant of
/// its completion, the instant of its start stands for it.
pub open spec fn restored_phase(
    status: Seq<char>,
    conclusion: Seq<char>,
    started_at: i64,
    completed_at: Option<i64>,
) -> Option<RunPhase> {
    match status_named(status) {
        Some(JobStatus::Queued) => Some(RunPhase::Queued),
        Some(JobStatus::InProgress) => Some(RunPhase::InProgress),
        Some(JobStatus::Completed) => match conclusion_named(conclusion) {
            Some(c) => Some(
                RunPhase::Completed {
                    conclusion: c,
                    completed_at: match completed_at {
                        Some(at) => at,
                        None => started_at,
                    },
                },
            ),
            None => None,
        },
        None => None,
    }
}

/// The run that a record describes, if the record describes one: the run
/// of the record's identifier, job and start in the phase of
/// [`restored_phase`].
pub open spec fn restored(
    run_id: Seq<char>,
    job_name: Seq<char>,
    status: Seq<char>,
    conclusion: Seq<char>,
    started_at: i64,
    completed_at: Option<i64>,
) -> Option<JobRunView> {
    match restored_phase(status, conclusion, started_at, completed_at) {
        Some(phase) => Some(JobRunView { run_id, job_name, started_at: started_at as int, phase }),
        None => None,
    }
}

/// A run that is written down under the names of its status and of its
/// conclusion is restored as it was.
pub proof fn lemma_restored_as_recorded(run: JobRunView, started_at: i64)
    requires
        run.started_at == started_at,
    ensures
        restored(
            run.run_id,
            run.job_name,
            status_name(run.phase.status()),
            match run.phase.conclusion() {
                Some(c) => conclusion_name(c),
                None => Seq::empty(),
            },
            started_at,
            run.phase.completed_at(),
        ) == Some(run),
{
    lemma_names_read_back();
}

impl JobRun {
    /// A run of `job_name` that was queued at `now`.
    pub fn queued(run_id: &str, job_name: &str, now: i64) -> (run: JobRun)
        ensures
            run@ == (JobRunView {
                run_id: run_id@,
                job_name: job_name@,
                started_at: now as int,
                phase: RunPhase::Queued,
            }),
    {
        JobRun {
            run_id: String::from_str(run_id),
            job_name: String::from_str(job_name),
            started_at: now,
            phase: RunPhase::Queued,
        }
    }

    /// The run that a record describes, if the record describes one. See
    /// [`restored`].
    pub fn restore(
        run_id: &str,
        job_name: &str,
        status: &str,
        conclusion: &str,
        started_at: i64,
        completed_at: Option<i64>,
    ) -> (run: Option<JobRun>)
        ensures
            run_view(run) == restored(
                run_id@,
                job_name@,
                status@,
                conclusion@,
                started_at,
                completed_at,
            ),
    {
        let phase = match JobStatus::parse(status) {
            Some(JobStatus::Queued) => RunPhase::Queued,
            Some(JobStatus::InProgress) => RunPhase::InProgress,
            Some(JobStatus::Completed) => match Conclusion::parse(conclusion) {
                Some(c) => RunPhase::Completed {
                    conclusion: c,
                    completed_at: match completed_at {
                        Some(at) => at,
                        None => started_at,
                    },
                },
                None => {
                    return None;
                },
            },
            None => {
                return None;
            },
        };
        Some(
            JobRun {
                run_id: String::from_str(run_id),
                job_name: String::from_str(job_name),
                started_at,
                phase,
            },
        )
    }

    /// The status of the run.
    pub fn status(&self) -> (status: JobStatus)
        ensures
            status == self@.phase.status(),
    {
        match self.phase {
            RunPhase::Queued => JobStatus::Queued,
            RunPhase::InProgress => JobStatus::InProgress,
            RunPhase::Completed { .. } => JobStatus::Completed,
        }
    }

    /// The conclusion of the run: `Some` exactly when it is completed.
    pub fn conclusion(&self) -> (conclusion: Option<Conclusion>)
        ensures
            conclusion == self@.phase.conclusion(),
            conclusion is Some <==> self@.is_completed(),
    {
        match self.phase {
            RunPhase::Completed { conclusion, .. } => Some(conclusion),
            _ => None,
        }
    }

    /// The instant at which the run was completed: `Some` exactly when it
    /// is completed.
    pub fn completed_at(&self) -> (completed_at: Option<i64>)
        ensures
            completed_at == self@.phase.completed_at(),
            completed_at is Some <==> self@.is_completed(),
    {
        match self.phase {
            RunPhase::Completed { completed_at, .. } => Some(completed_at),
            _ => None,
        }
    }

    /// Whether the run is completed.
    pub fn is_completed(&self) -> (completed: bool)
        ensures
            completed == self@.is_completed(),
    {
        match self.phase {
            RunPhase::Completed { .. } => true,
            _ => false,
        }
    }

    /// Marks a queued run as in progress. Returns whether the run was
    /// queued; any other run stays as it is.
    pub fn start(&mut self) -> (moved: bool)
        ensures
            final(self)@ == (JobRunView { phase: old(self)@.phase.started(), ..old(self)@ }),
            moved == (old(self)@.phase == RunPhase::Queued),
    {
        match self.phase {
            RunPhase::Queued => {
                self.phase = RunPhase::InProgress;
                true
            },
            _ => false,
        }
    }

    /// Completes the run with `conclusion` at the instant `now`. Returns
    /// whether the run was still open; a completed run stays as it is.
    pub fn complete(&mut self, conclusion: Conclusion, now: i64) -> (moved: bool)
        ensures
            final(self)@ == (JobRunView {
                phase: old(self)@.phase.completed(conclusion, now),
                ..old(self)@
            }),
            moved == !old(self)@.is_completed(),
    {
        match self.phase {
            RunPhase::Completed { .. } => false,
            _ => {
                self.phase = RunPhase::Completed { conclusion, completed_at: now };
                true
            },
        }
    }

    /// Cancels the run at the instant `now`, as a shutdown does. Returns
    /// whether the run was still open; a completed run stays as it is.
    pub fn cancel(&mut self, now: i64) -> (moved: bool)
        ensures
            final(self)@ == old(self)@.cancelled(now),
            moved == !old(self)@.is_completed(),
    {
        self.complete(Conclusion::Cancelled, now)
    }
}

} // verus!
