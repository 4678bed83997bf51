use nosana_core::common::{NosanaError, Pubkey};
use nosana_core::jobs::{Job, JobStatus, Jobs};

fn key(tag: u64) -> Pubkey {
    Pubkey::new(tag, 0, 0, 0)
}

fn fresh_queue() -> Jobs {
    let mut queue = Jobs { authority: key(0), jobs: Vec::new() };
    queue.init(key(9));
    queue
}

fn fresh_job() -> Job {
    Job {
        node: key(0),
        job_status: 0,
        ipfs_job: [0; 32],
        ipfs_result: [0; 32],
        tokens: 0,
    }
}

#[test]
fn queue_removal_takes_the_first_occurrence() {
    let mut queue = fresh_queue();
    queue.add_job(key(1));
    queue.add_job(key(2));
    queue.add_job(key(1));
    assert_eq!(queue.jobs.len(), 3);

    assert_eq!(queue.remove_job(&key(1)), Ok(()));
    assert_eq!(queue.jobs, vec![key(2), key(1)]);

    assert_eq!(queue.remove_job(&key(1)), Ok(()));
    assert_eq!(queue.jobs, vec![key(2)]);
}

#[test]
fn removing_an_absent_key_is_rejected_without_state_change() {
    let mut queue = fresh_queue();
    queue.add_job(key(1));
    queue.add_job(key(2));
    assert_eq!(queue.remove_job(&key(3)), Err(NosanaError::JobQueueNotFound));
    assert_eq!(queue.jobs, vec![key(1), key(2)]);
}

#[test]
fn removing_from_an_empty_queue_is_rejected() {
    let mut queue = fresh_queue();
    assert_eq!(queue.remove_job(&key(1)), Err(NosanaError::JobQueueNotFound));
    assert_eq!(queue.jobs.len(), 0);
}

#[test]
fn job_lifecycle_walks_the_status_codes() {
    let mut job = fresh_job();
    let instruction_hash = [7u8; 32];
    let result_hash = [9u8; 32];

    job.create(instruction_hash, 500);
    assert_eq!(job.job_status, JobStatus::Created.code());
    assert_eq!(job.job_status, 0);
    assert_eq!(job.ipfs_job, instruction_hash);
    assert_eq!(job.tokens, 500);

    job.claim(key(5));
    assert_eq!(job.job_status, JobStatus::Claimed.code());
    assert_eq!(job.job_status, 1);
    assert_eq!(job.node, key(5));

    job.finish(result_hash);
    assert_eq!(job.job_status, JobStatus::Finished.code());
    assert_eq!(job.job_status, 2);
    assert_eq!(job.ipfs_result, result_hash);
    // The instruction hash and the payment survive the whole lifecycle.
    assert_eq!(job.ipfs_job, instruction_hash);
    assert_eq!(job.tokens, 500);
}

#[test]
fn cancelling_a_job_only_touches_the_status() {
    let mut job = fresh_job();
    job.create([3u8; 32], 42);
    job.cancel();
    assert_eq!(job.job_status, JobStatus::Cancelled.code());
    assert_eq!(job.job_status, 3);
    assert_eq!(job.ipfs_job, [3u8; 32]);
    assert_eq!(job.tokens, 42);
}
