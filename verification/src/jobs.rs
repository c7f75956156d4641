//! The catalogue of background jobs and their fixed intervals.

use vstd::prelude::*;
use vstd::string::*;

verus! {

/// Seconds in an hour.
pub const SECONDS_PER_HOUR: u64 = 3600;

/// Seconds in a day.
pub const SECONDS_PER_DAY: u64 = 86400;

/// A named job and the interval at which it recurs.
#[derive(Debug, PartialEq, Eq)]
pub struct JobSpec {
    /// Name under which the job is started.
    pub name: String,
    /// Interval between two runs, in seconds.
    pub interval: u64,
}

/// Mathematical value of a [`JobSpec`].
pub struct JobSpecView {
    pub name: Seq<char>,
    pub interval: nat,
}

impl View for JobSpec {
    type V = JobSpecView;

    open spec fn view(&self) -> JobSpecView {
        JobSpecView { name: self.name@, interval: self.interval as nat }
    }
}

/// The job `name` recurring every `hours` hours, as a mathematical value.
pub open spec fn hourly(name: Seq<char>, hours: nat) -> JobSpecView {
    JobSpecView { name, interval: hours * 3600 }
}

/// The catalogue: every job of the gateway with its interval, in the order
/// of registration.
pub open spec fn standard_jobs() -> Seq<JobSpecView> {
    seq![
        hourly("sync-analytics"@, 24),
        hourly("sync-api-tokens"@, 23),
        hourly("sync-applications"@, 6),
        hourly("sync-asset-inventory"@, 2),
        hourly("sync-companies"@, 12),
        hourly("sync-configs"@, 4),
        hourly("sync-finance"@, 6),
        hourly("sync-functions"@, 12),
        hourly("sync-huddles"@, 1),
        hourly("sync-interviews"@, 4),
        hourly("sync-journal-clubs"@, 12),
        hourly("sync-mailing-lists"@, 20),
        hourly("sync-other"@, 18),
        hourly("sync-recorded-meetings"@, 2),
        hourly("sync-repos"@, 16),
        hourly("sync-rfds"@, 14),
        hourly("sync-shipments"@, 2),
        hourly("sync-shorturls"@, 3),
        hourly("sync-swag-inventory"@, 9),
        hourly("sync-travel"@, 5),
    ]
}

/// Views of the specs held by `jobs`, in order.
pub open spec fn job_views(jobs: Seq<JobSpec>) -> Seq<JobSpecView> {
    Seq::new(jobs.len(), |i: int| jobs[i]@)
}

impl JobSpec {
    /// A job that recurs every `interval` seconds.
    pub fn new(name: &str, interval: u64) -> (job: JobSpec)
        ensures
            job@ == (JobSpecView { name: name@, interval: interval as nat }),
    {
        JobSpec { name: String::from_str(name), interval }
    }

    /// A job that recurs every `hours` hours.
    pub fn every_hours(name: &str, hours: u32) -> (job: JobSpec)
        ensures
            job@ == hourly(name@, hours as nat),
    {
        JobSpec { name: String::from_str(name), interval: hours as u64 * SECONDS_PER_HOUR }
    }

    /// A job that recurs every `days` days.
    pub fn every_days(name: &str, days: u32) -> (job: JobSpec)
        ensures
            job@ == hourly(name@, 24 * days as nat),
    {
        JobSpec { name: String::from_str(name), interval: days as u64 * SECONDS_PER_DAY }
    }
}

/// Builds the catalogue of [`standard_jobs`].
pub fn job_registry() -> (jobs: Vec<JobSpec>)
    ensures
        job_views(jobs@) == standard_jobs(),
{
    let mut jobs: Vec<JobSpec> = Vec::new();
    jobs.push(JobSpec::every_days("sync-analytics", 1));
    jobs.push(JobSpec::every_hours("sync-api-tokens", 23));
    jobs.push(JobSpec::every_hours("sync-applications", 6));
    jobs.push(JobSpec::every_hours("sync-asset-inventory", 2));
    jobs.push(JobSpec::every_hours("sync-companies", 12));
    jobs.push(JobSpec::every_hours("sync-configs", 4));
    jobs.push(JobSpec::every_hours("sync-finance", 6));
    jobs.push(JobSpec::every_hours("sync-functions", 12));
    jobs.push(JobSpec::every_hours("sync-huddles", 1));
    jobs.push(JobSpec::every_hours("sync-interviews", 4));
    jobs.push(JobSpec::every_hours("sync-journal-clubs", 12));
    jobs.push(JobSpec::every_hours("sync-mailing-lists", 20));
    jobs.push(JobSpec::every_hours("sync-other", 18));
    jobs.push(JobSpec::every_hours("sync-recorded-meetings", 2));
    jobs.push(JobSpec::every_hours("sync-repos", 16));
    jobs.push(JobSpec::every_hours("sync-rfds", 14));
    jobs.push(JobSpec::every_hours("sync-shipments", 2));
    jobs.push(JobSpec::every_hours("sync-shorturls", 3));
    jobs.push(JobSpec::every_hours("sync-swag-inventory", 9));
    jobs.push(JobSpec::every_hours("sync-travel", 5));
    jobs
}

/// Looks a job up by name; the first match counts.
pub fn find_job(jobs: &Vec<JobSpec>, name: &str) -> (found: Option<usize>)
    ensures
        match found {
            Some(i) => i < jobs.len() && jobs[i as int]@.name == name@
                && forall|j: int| 0 <= j < i ==> jobs[j]@.name != name@,
            None => forall|j: int| 0 <= j < jobs.len() ==> jobs[j]@.name != name@,
        },
{
    let wanted = String::from_str(name);
    let mut i: usize = 0;
    while i < jobs.len()
        invariant
            i <= jobs.len(),
            wanted@ == name@,
            forall|j: int| 0 <= j < i ==> jobs[j]@.name != name@,
        decreases jobs.len() - i,
    {
        if jobs[i].name == wanted {
            return Some(i);
        }
        i = i + 1;
    }
    None
}

} // verus!
