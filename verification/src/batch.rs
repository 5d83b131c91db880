//! A batch of jobs under a concurrency bound. The batch hands out admission
//! tokens: a job works only while it holds one, and at no time are more
//! tokens out than the bound allows.

use vstd::prelude::*;
use crate::commands::{concurrency_bound, concurrency_for, ProcessOptions, ProcessResult, ResultModel};
use crate::commands::DEFAULT_PARALLELISM;
use crate::job::{JobModel, ProcessJob};

verus! {

/// What a batch is: its jobs, its bound, how many jobs have been admitted and
/// how many of those have ended, and the outcomes so far.
pub struct BatchModel {
    pub jobs: Seq<JobModel>,
    pub limit: nat,
    pub started: nat,
    pub finished: nat,
    pub results: Seq<ResultModel>,
}

impl BatchModel {
    /// Number of jobs that hold a token.
    pub open spec fn running(self) -> int {
        self.started - self.finished
    }

    /// Every job has ended.
    pub open spec fn done(self) -> bool {
        self.finished == self.jobs.len()
    }

    /// A token is free and a job is waiting for it.
    pub open spec fn can_start(self) -> bool {
        self.started < self.jobs.len() && self.running() < self.limit
    }

    /// Jobs are admitted in order and end after they were admitted; the jobs
    /// that hold a token are never more than the bound, which is at least 1;
    /// every job knows its place; there is one outcome per ended job.
    pub open spec fn wf(self) -> bool {
        &&& self.limit >= 1
        &&& self.finished <= self.started <= self.jobs.len()
        &&& self.running() <= self.limit
        &&& self.results.len() == self.finished
        &&& forall|i: int|
            0 <= i < self.jobs.len() ==> {
                &&& (#[trigger] self.jobs[i]).wf()
                &&& self.jobs[i].index == i
                &&& self.jobs[i].total == self.jobs.len()
            }
    }
}

/// The jobs of a batch, each with its place and the shared options.
pub open spec fn planned(files: Seq<(String, String)>, options: ProcessOptions, i: int) -> JobModel {
    JobModel {
        input_path: files[i].0@,
        output_path: files[i].1@,
        options,
        index: i as nat,
        total: files.len(),
        progress: crate::commands::progress_fraction(i as nat, files.len()),
    }
}

/// A batch in progress.
#[derive(Debug)]
pub struct Batch {
    jobs: Vec<ProcessJob>,
    limit: usize,
    started: usize,
    finished: usize,
    results: Vec<ProcessResult>,
}

impl View for Batch {
    type V = BatchModel;

    closed spec fn view(&self) -> BatchModel {
        BatchModel {
            jobs: self.jobs@.map_values(|j: ProcessJob| j@),
            limit: self.limit as nat,
            started: self.started as nat,
            finished: self.finished as nat,
            results: self.results@.map_values(|r: ProcessResult| r@),
        }
    }
}

/// The concurrency bound of a batch on a machine that reports `available`.
pub open spec fn bound_for(available: Option<usize>) -> nat {
    concurrency_bound(
        match available {
            Some(n) => n as nat,
            None => DEFAULT_PARALLELISM as nat,
        },
    )
}

/// Submit a batch: one job per pair of input and output path, in order, each
/// with the progress fraction of its place, under the concurrency bound of
/// the machine. No job has been admitted yet.
pub fn process_bulk(files: Vec<(String, String)>, options: ProcessOptions, available: Option<
    usize,
>) -> (batch: Batch)
    ensures
        batch@.wf(),
        batch@.limit == bound_for(available),
        batch@.started == 0,
        batch@.finished == 0,
        batch@.jobs.len() == files@.len(),
        forall|i: int| 0 <= i < files@.len() ==> batch@.jobs[i] == planned(files@, options, i),
{
    let total: usize = files.len();
    let mut jobs: Vec<ProcessJob> = Vec::new();
    let mut i: usize = 0;
    while i < total
        invariant
            i <= total,
            total == files@.len(),
            jobs@.len() == i,
            forall|k: int| 0 <= k < i ==> (#[trigger] jobs@[k])@ == planned(files@, options, k),
            forall|k: int| 0 <= k < i ==> (#[trigger] jobs@[k])@.wf(),
        decreases total - i,
    {
        let input = files[i].0.clone();
        let output = files[i].1.clone();
        if let Some(job) = ProcessJob::new(input, output, options, i, total) {
            jobs.push(job);
        }
        i = i + 1;
    }
    let limit = concurrency_for(available);
    let batch = Batch { jobs, limit, started: 0, finished: 0, results: Vec::new() };
    assert(batch@.jobs.len() == files@.len());
    assert forall|k: int| 0 <= k < files@.len() implies batch@.jobs[k] == planned(
        files@,
        options,
        k,
    ) by {
        assert(batch@.jobs[k] == batch.jobs@[k]@);
    }
    batch
}

impl Batch {
    /// Number of jobs.
    pub fn len(&self) -> (n: usize)
        requires
            self@.wf(),
        ensures
            n == self@.jobs.len(),
    {
        self.jobs.len()
    }

    /// The concurrency bound.
    pub fn limit(&self) -> (n: usize)
        requires
            self@.wf(),
        ensures
            n == self@.limit,
    {
        self.limit
    }

    /// Number of jobs that hold a token.
    pub fn running(&self) -> (n: usize)
        requires
            self@.wf(),
        ensures
            n == self@.running(),
            n <= self@.limit,
    {
        self.started - self.finished
    }

    /// Whether every job has ended.
    pub fn is_done(&self) -> (done: bool)
        requires
            self@.wf(),
        ensures
            done == self@.done(),
    {
        self.finished == self.jobs.len()
    }

    /// Job `i` of the batch.
    pub fn job(&self, i: usize) -> (job: Option<&ProcessJob>)
        requires
            self@.wf(),
        ensures
            job is Some <==> i < self@.jobs.len(),
            job matches Some(j) ==> j@ == self@.jobs[i as int],
    {
        if i < self.jobs.len() {
            Some(&self.jobs[i])
        } else {
            None
        }
    }

    /// The outcomes of the jobs that have ended, in the order they ended.
    pub fn results(&self) -> (r: &Vec<ProcessResult>)
        requires
            self@.wf(),
        ensures
            r@.map_values(|x: ProcessResult| x@) == self@.results,
    {
        &self.results
    }

    /// Hand the next waiting job a token, if one is free: the jobs are
    /// admitted in the order of submission. Without a free token, or without
    /// a waiting job, nothing changes.
    pub fn start_next(&mut self) -> (next: Option<usize>)
        requires
            old(self)@.wf(),
        ensures
            final(self)@.wf(),
            next is Some <==> old(self)@.can_start(),
            next matches Some(i) ==> i == old(self)@.started && final(self)@ == (BatchModel {
                started: old(self)@.started + 1,
                ..old(self)@
            }),
            next is None ==> final(self)@ == old(self)@,
    {
        if self.started < self.jobs.len() && self.started - self.finished < self.limit {
            let i = self.started;
            self.started = i + 1;
            Some(i)
        } else {
            None
        }
    }

    /// Take back the token of a job that has ended, and keep its outcome. A
    /// failure frees the token as a success does. Without a job that holds a
    /// token nothing changes, and the answer is `false`.
    pub fn complete(&mut self, result: ProcessResult) -> (taken: bool)
        requires
            old(self)@.wf(),
        ensures
            final(self)@.wf(),
            taken <==> old(self)@.running() > 0,
            taken ==> final(self)@ == (BatchModel {
                finished: old(self)@.finished + 1,
                results: old(self)@.results.push(result@),
                ..old(self)@
            }),
            !taken ==> final(self)@ == old(self)@,
    {
        if self.started > self.finished {
            let ghost before = self.results@;
            self.finished = self.finished + 1;
            self.results.push(result);
            assert(self.results@.map_values(|r: ProcessResult| r@) =~= before.map_values(
                |r: ProcessResult| r@,
            ).push(result@));
            true
        } else {
            false
        }
    }
}

/// At no time do more jobs hold a token than the bound allows, and the bound
/// is three quarters of the machine's parallelism, rounded down, but not
/// less than one.
pub proof fn lemma_tokens_out_are_bounded(b: BatchModel, available: Option<usize>)
    requires
        b.wf(),
        b.limit == bound_for(available),
    ensures
        b.running() <= bound_for(available),
        available matches Some(n) ==> n >= 1 ==> bound_for(available) <= n,
        bound_for(available) >= 1,
{
}

/// A batch that is not done can always go on: a job holds a token and will
/// give it back, or a waiting job can be admitted. So every batch ends,
/// however many of its jobs fail.
pub proof fn lemma_batch_is_never_stuck(b: BatchModel)
    requires
        b.wf(),
        !b.done(),
    ensures
        b.running() > 0 || b.can_start(),
{
}

/// A batch is done exactly when every job has been admitted and has given
/// its token back, and then it holds one outcome per job.
pub proof fn lemma_done_batch_has_all_outcomes(b: BatchModel)
    requires
        b.wf(),
        b.done(),
    ensures
        b.started == b.jobs.len(),
        b.running() == 0,
        !b.can_start(),
        b.results.len() == b.jobs.len(),
{
}

} // verus!
