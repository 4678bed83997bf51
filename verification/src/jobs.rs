//! The per-project job queue and the job records it points at.
//!
//! A project holds a list of job keys; nodes claim jobs, finish them with a
//! result hash, or see them cancelled.  Removal is by key: the first
//! occurrence leaves the queue, and removing an absent key is rejected.

use vstd::prelude::*;

use crate::common::{NosanaError, Pubkey};

verus! {

/// The states a job can take, stored on the record as a byte code.
#[derive(Clone, Copy, Debug, PartialEq, Eq, Structural)]
pub enum JobStatus {
    Created,
    Claimed,
    Finished,
    Cancelled,
}

impl JobStatus {
    /// The byte code a job record stores for this status.
    pub open spec fn spec_code(self) -> u8 {
        match self {
            JobStatus::Created => 0,
            JobStatus::Claimed => 1,
            JobStatus::Finished => 2,
            JobStatus::Cancelled => 3,
        }
    }

    /// Returns the byte code of this status.
    pub fn code(self) -> (code: u8)
        ensures
            code == self.spec_code(),
    {
        match self {
            JobStatus::Created => 0,
            JobStatus::Claimed => 1,
            JobStatus::Finished => 2,
            JobStatus::Cancelled => 3,
        }
    }
}

/// A project's queue: its creator and the keys of its open jobs.
pub struct Jobs {
    pub authority: Pubkey,
    pub jobs: Vec<Pubkey>,
}

impl Jobs {
    /// Starts an empty queue for `authority`.
    pub fn init(&mut self, authority: Pubkey)
        ensures
            final(self).authority == authority,
            final(self).jobs@.len() == 0,
    {
        self.authority = authority;
        self.jobs = Vec::new();
    }

    /// Appends a job key to the queue.
    pub fn add_job(&mut self, job_key: Pubkey)
        ensures
            final(self).jobs@ == old(self).jobs@.push(job_key),
            final(self).authority == old(self).authority,
    {
        self.jobs.push(job_key);
    }

    /// Removes the first occurrence of `job_key` from the queue; rejects a
    /// key the queue does not hold, leaving it untouched.
    pub fn remove_job(&mut self, job_key: &Pubkey) -> (result: Result<(), NosanaError>)
        ensures
            final(self).authority == old(self).authority,
            match result {
                Ok(()) => exists|i: int|
                    0 <= i < old(self).jobs@.len()
                    && #[trigger] old(self).jobs@[i] == *job_key
                    && (forall|j: int| 0 <= j < i ==> old(self).jobs@[j] != *job_key)
                    && final(self).jobs@ == old(self).jobs@.remove(i),
                Err(e) => e == NosanaError::JobQueueNotFound
                    && !old(self).jobs@.contains(*job_key)
                    && final(self).jobs@ == old(self).jobs@,
            },
    {
        let n: usize = self.jobs.len();
        let mut i: usize = 0;
        while i < n
            invariant
                i <= n,
                n == self.jobs@.len(),
                self.jobs@ == old(self).jobs@,
                self.authority == old(self).authority,
                forall|j: int| 0 <= j < i ==> old(self).jobs@[j] != *job_key,
            decreases n - i,
        {
            if self.jobs[i] == *job_key {
                self.jobs.remove(i);
                return Ok(());
            }
            i = i + 1;
        }
        Err(NosanaError::JobQueueNotFound)
    }
}

/// One compute job: the claiming node, the status byte, the content hashes
/// of its instructions and its result, and the tokens it pays.
pub struct Job {
    pub node: Pubkey,
    pub job_status: u8,
    pub ipfs_job: [u8; 32],
    pub ipfs_result: [u8; 32],
    pub tokens: u64,
}

impl Job {
    /// Opens the job with its instruction hash and its payment.
    pub fn create(&mut self, data: [u8; 32], amount: u64)
        ensures
            final(self).job_status == JobStatus::Created.spec_code(),
            final(self).ipfs_job == data,
            final(self).tokens == amount,
            final(self).node == old(self).node,
            final(self).ipfs_result == old(self).ipfs_result,
    {
        self.job_status = JobStatus::Created.code();
        self.ipfs_job = data;
        self.tokens = amount;
    }

    /// Hands the job to the claiming node.
    pub fn claim(&mut self, node: Pubkey)
        ensures
            final(self).job_status == JobStatus::Claimed.spec_code(),
            final(self).node == node,
            final(self).ipfs_job == old(self).ipfs_job,
            final(self).ipfs_result == old(self).ipfs_result,
            final(self).tokens == old(self).tokens,
    {
        self.job_status = JobStatus::Claimed.code();
        self.node = node;
    }

    /// Closes the job with its result hash.
    pub fn finish(&mut self, data: [u8; 32])
        ensures
            final(self).job_status == JobStatus::Finished.spec_code(),
            final(self).ipfs_result == data,
            final(self).node == old(self).node,
            final(self).ipfs_job == old(self).ipfs_job,
            final(self).tokens == old(self).tokens,
    {
        self.job_status = JobStatus::Finished.code();
        self.ipfs_result = data;
    }

    /// Withdraws the job.
    pub fn cancel(&mut self)
        ensures
            final(self).job_status == JobStatus::Cancelled.spec_code(),
            final(self).node == old(self).node,
            final(self).ipfs_job == old(self).ipfs_job,
            final(self).ipfs_result == old(self).ipfs_result,
            final(self).tokens == old(self).tokens,
    {
        self.job_status = JobStatus::Cancelled.code();
    }
}

} // verus!
