use webhooky::jobs::{job_registry, JobSpec};
use webhooky::scheduler::{JobScheduler, ScheduledJob, POLL_INTERVAL_MILLIS};

const HOUR: i64 = 3600;

fn hourly_and_two_hourly() -> JobScheduler {
    JobScheduler::new(vec![JobSpec::every_hours("hourly", 1), JobSpec::every_hours("two-hourly", 2)], 0)
}

#[test]
fn registered_jobs_wait_one_interval_from_the_start() {
    let scheduler = JobScheduler::new(
        vec![JobSpec::every_hours("hourly", 1), JobSpec::every_hours("two-hourly", 2)],
        1000,
    );
    assert_eq!(scheduler.len(), 2);
    assert_eq!(
        scheduler.entries,
        vec![
            ScheduledJob { name: "hourly".to_string(), interval: 3600, last_due: 1000 },
            ScheduledJob { name: "two-hourly".to_string(), interval: 7200, last_due: 1000 },
        ]
    );
    assert_eq!(scheduler.next_due(0), Some(4600));
    assert_eq!(scheduler.next_due(1), Some(8200));
    assert_eq!(scheduler.next_due(2), None);
}

#[test]
fn one_and_two_hour_jobs_by_two_hours_and_a_minute() {
    let mut scheduler = hourly_and_two_hourly();
    let mut fired = vec![0u32, 0u32];
    let mut first_fired_at: Vec<Option<i64>> = vec![None, None];
    let mut now = 0i64;
    while now <= 2 * HOUR + 60 {
        for position in scheduler.run_pending(now) {
            fired[position] += 1;
            first_fired_at[position].get_or_insert(now);
        }
        now += 1;
    }
    assert!(fired[0] >= 2);
    assert!(fired[1] >= 1);
    assert_eq!(fired, vec![2, 1]);
    assert_eq!(first_fired_at, vec![Some(HOUR), Some(2 * HOUR)]);
}

#[test]
fn polling_every_hundred_milliseconds_fires_as_polling_every_second() {
    assert_eq!(POLL_INTERVAL_MILLIS, 100);
    let mut scheduler = hourly_and_two_hourly();
    let mut fired = vec![0u32, 0u32];
    let mut millis = 0i64;
    while millis <= (2 * HOUR + 60) * 1000 {
        for position in scheduler.run_pending(millis / 1000) {
            fired[position] += 1;
        }
        millis += POLL_INTERVAL_MILLIS as i64;
    }
    assert_eq!(fired, vec![2, 1]);
}

#[test]
fn no_job_fires_before_its_interval_has_elapsed() {
    let mut scheduler = hourly_and_two_hourly();
    assert_eq!(scheduler.run_pending(0), Vec::<usize>::new());
    assert_eq!(scheduler.run_pending(HOUR - 1), Vec::<usize>::new());
    assert_eq!(scheduler.run_pending(HOUR), vec![0]);
    assert_eq!(scheduler.run_pending(HOUR), Vec::<usize>::new());
    assert_eq!(scheduler.run_pending(2 * HOUR - 1), Vec::<usize>::new());
    assert_eq!(scheduler.run_pending(2 * HOUR), vec![0, 1]);
    assert_eq!(scheduler.run_pending(2 * HOUR), Vec::<usize>::new());
}

#[test]
fn due_job_moves_on_by_exactly_one_interval() {
    let mut scheduler = hourly_and_two_hourly();
    scheduler.run_pending(HOUR + 17);
    assert_eq!(scheduler.entries[0].last_due, HOUR);
    assert_eq!(scheduler.next_due(0), Some(2 * HOUR as i128));
    assert_eq!(scheduler.entries[1].last_due, 0);
    assert_eq!(scheduler.next_due(1), Some(2 * HOUR as i128));
}

#[test]
fn job_that_is_far_behind_fires_once_per_poll_until_it_has_caught_up() {
    let mut scheduler = hourly_and_two_hourly();
    let now = 3 * HOUR + 5;
    assert_eq!(scheduler.run_pending(now), vec![0, 1]);
    assert_eq!(scheduler.run_pending(now), vec![0]);
    assert_eq!(scheduler.run_pending(now), vec![0]);
    assert_eq!(scheduler.run_pending(now), Vec::<usize>::new());
    assert_eq!(scheduler.next_due(0), Some(4 * HOUR as i128));
    assert_eq!(scheduler.next_due(1), Some(4 * HOUR as i128));
}

#[test]
fn job_may_fire_again_whether_or_not_its_last_run_has_ended() {
    let mut scheduler = JobScheduler::new(vec![JobSpec::new("quick", 10)], 0);
    let mut fired = 0;
    for now in 0..=35 {
        fired += scheduler.run_pending(now).len();
    }
    assert_eq!(fired, 3);
}

#[test]
fn job_without_interval_fires_at_every_poll() {
    let mut scheduler = JobScheduler::new(vec![JobSpec::new("always", 0)], 50);
    assert_eq!(scheduler.run_pending(49), Vec::<usize>::new());
    assert_eq!(scheduler.run_pending(50), vec![0]);
    assert_eq!(scheduler.run_pending(50), vec![0]);
    assert_eq!(scheduler.entries[0].last_due, 50);
}

#[test]
fn due_times_at_the_ends_of_the_range_of_instants() {
    let mut late = JobScheduler::new(vec![JobSpec::new("late", u64::MAX)], i64::MAX);
    assert_eq!(late.next_due(0), Some(i64::MAX as i128 + u64::MAX as i128));
    assert_eq!(late.run_pending(i64::MAX), Vec::<usize>::new());
    let mut early = JobScheduler::new(vec![JobSpec::new("early", u64::MAX)], i64::MIN);
    assert_eq!(early.next_due(0), Some(i64::MAX as i128));
    assert_eq!(early.run_pending(i64::MAX - 1), Vec::<usize>::new());
    assert_eq!(early.run_pending(i64::MAX), vec![0]);
    assert_eq!(early.entries[0].last_due, i64::MAX);
}

#[test]
fn empty_table_starts_nothing() {
    let mut scheduler = JobScheduler::new(Vec::new(), 0);
    assert_eq!(scheduler.len(), 0);
    assert_eq!(scheduler.run_pending(i64::MAX), Vec::<usize>::new());
}

#[test]
fn standard_jobs_over_one_day() {
    let mut scheduler = JobScheduler::new(job_registry(), 0);
    let mut fired = vec![0u64; scheduler.len()];
    let mut now = 0;
    while now <= 24 * HOUR {
        for position in scheduler.run_pending(now) {
            fired[position] += 1;
        }
        now += 60;
    }
    let hours = [24, 23, 6, 2, 12, 4, 6, 12, 1, 4, 12, 20, 18, 2, 16, 14, 2, 3, 9, 5];
    let wanted: Vec<u64> = hours.iter().map(|h| 24 / h).collect();
    assert_eq!(fired, wanted);
}

#[test]
fn scheduler_started_on_the_clock_waits_one_interval() {
    let mut scheduler = JobScheduler::start(vec![JobSpec::every_hours("hourly", 1)]);
    let registered_at = scheduler.entries[0].last_due;
    assert!(registered_at > 1_600_000_000);
    assert_eq!(scheduler.next_due(0), Some(registered_at as i128 + 3600));
    assert_eq!(scheduler.tick(), Vec::<usize>::new());
    assert_eq!(scheduler.entries[0].last_due, registered_at);
}

#[test]
fn tick_starts_a_job_that_is_due_on_the_clock() {
    let mut scheduler = JobScheduler::new(vec![JobSpec::new("due", 5), JobSpec::new("later", 5)], 0);
    scheduler.entries[1].last_due = i64::MAX - 5;
    assert_eq!(scheduler.tick(), vec![0]);
    assert_eq!(scheduler.entries[0].last_due, 5);
    assert_eq!(scheduler.entries[1].last_due, i64::MAX - 5);
}
