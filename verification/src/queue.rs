//! The job queue: jobs in the order they were added, with the transitions the
//! worker and the clients apply to them.
//!
//! Every change returns the job as it now stands so the caller can broadcast
//! it to subscribers (`QueueEvent`).
use vstd::prelude::*;
use crate::job::{Job, JobStatus, same_job, status_is_terminal};

verus! {

/// Sent to all subscribers (TUI, IPC) whenever the queue changes.
#[derive(Debug, Clone)]
pub enum QueueEvent {
    JobAdded(Job),
    JobUpdated(Job),
}

/// Index of the first job that is still queued.
pub open spec fn first_queued(s: Seq<Job>) -> Option<int>
    decreases s.len(),
{
    if s.len() == 0 {
        None
    } else {
        match first_queued(s.drop_last()) {
            Some(i) => Some(i),
            None => if s.last().status is Queued {
                Some(s.len() - 1)
            } else {
                None
            },
        }
    }
}

/// Index of the first job with the given id.
pub open spec fn index_of_id(s: Seq<Job>, id: u128) -> Option<int>
    decreases s.len(),
{
    if s.len() == 0 {
        None
    } else {
        match index_of_id(s.drop_last(), id) {
            Some(i) => Some(i),
            None => if s.last().id == id {
                Some(s.len() - 1)
            } else {
                None
            },
        }
    }
}

pub open spec fn with_status(j: Job, st: JobStatus) -> Job {
    Job { status: st, ..j }
}

pub open spec fn with_progress(j: Job, p: u8) -> Job {
    Job { progress: p, ..j }
}

/// The worker's record of a finished run: `Done`, or `Failed` with the error
/// text, unless the job was cancelled meanwhile; progress 100; finish time set.
pub open spec fn finished(j: Job, error: Option<String>, at: i64) -> Job {
    let st = if j.status is Cancelled {
        j.status
    } else {
        match error {
            None => JobStatus::Done,
            Some(e) => JobStatus::Failed(e),
        }
    };
    Job { status: st, progress: 100, finished_at: Some(at), ..j }
}

pub open spec fn with_share(j: Job, url: String) -> Job {
    Job { share_url: Some(url), share_token: None, ..j }
}

/// The queue after `pop_next`.
pub open spec fn after_pop(s: Seq<Job>) -> Seq<Job> {
    match first_queued(s) {
        Some(i) => s.update(i, with_status(s[i], JobStatus::Running)),
        None => s,
    }
}

/// Whether `cancel` succeeds: the first job with the id is not yet finished.
pub open spec fn cancel_succeeds(s: Seq<Job>, id: u128) -> bool {
    match index_of_id(s, id) {
        Some(i) => !status_is_terminal(s[i].status),
        None => false,
    }
}

/// The queue after `cancel`.
pub open spec fn after_cancel(s: Seq<Job>, id: u128) -> Seq<Job> {
    if cancel_succeeds(s, id) {
        let i = index_of_id(s, id)->0;
        s.update(i, with_status(s[i], JobStatus::Cancelled))
    } else {
        s
    }
}

/// The queue after a change `f` to the first job with the id.
pub open spec fn after_update(s: Seq<Job>, id: u128, f: spec_fn(Job) -> Job) -> Seq<Job> {
    match index_of_id(s, id) {
        Some(i) => s.update(i, f(s[i])),
        None => s,
    }
}

pub open spec fn after_finish(s: Seq<Job>, id: u128, error: Option<String>, at: i64) -> Seq<Job> {
    after_update(s, id, |j: Job| finished(j, error, at))
}

pub open spec fn after_progress(s: Seq<Job>, id: u128, p: u8) -> Seq<Job> {
    after_update(s, id, |j: Job| with_progress(j, p))
}

pub open spec fn after_share(s: Seq<Job>, id: u128, url: String) -> Seq<Job> {
    after_update(s, id, |j: Job| with_share(j, url))
}

pub proof fn lemma_index_of_id(s: Seq<Job>, id: u128)
    ensures
        match index_of_id(s, id) {
            Some(i) => 0 <= i < s.len() && s[i].id == id && forall|k: int|
                0 <= k < i ==> (#[trigger] s[k]).id != id,
            None => forall|k: int| 0 <= k < s.len() ==> (#[trigger] s[k]).id != id,
        },
    decreases s.len(),
{
    if s.len() > 0 {
        let d = s.drop_last();
        lemma_index_of_id(d, id);
        assert forall|k: int| 0 <= k < d.len() implies d[k] == s[k] by {}
        match index_of_id(d, id) {
            Some(i) => {
                assert forall|k: int| 0 <= k < i implies (#[trigger] s[k]).id != id by {
                    assert(d[k] == s[k]);
                }
            },
            None => {
                assert forall|k: int| 0 <= k < s.len() - 1 implies (#[trigger] s[k]).id != id by {
                    assert(d[k] == s[k]);
                }
            },
        }
    }
}

proof fn lemma_first_queued(s: Seq<Job>)
    ensures
        match first_queued(s) {
            Some(i) => 0 <= i < s.len() && s[i].status is Queued && forall|k: int|
                0 <= k < i ==> !((#[trigger] s[k]).status is Queued),
            None => forall|k: int| 0 <= k < s.len() ==> !((#[trigger] s[k]).status is Queued),
        },
    decreases s.len(),
{
    if s.len() > 0 {
        let d = s.drop_last();
        lemma_first_queued(d);
        match first_queued(d) {
            Some(i) => {
                assert forall|k: int| 0 <= k < i implies !((#[trigger] s[k]).status is Queued) by {
                    assert(d[k] == s[k]);
                }
            },
            None => {
                assert forall|k: int| 0 <= k < s.len() - 1 implies !((
                #[trigger] s[k]).status is Queued) by {
                    assert(d[k] == s[k]);
                }
            },
        }
    }
}

/// `first_queued` is the one index that is queued with no queued job before it.
proof fn lemma_first_queued_unique(s: Seq<Job>, i: int)
    requires
        0 <= i < s.len(),
        s[i].status is Queued,
        forall|k: int| 0 <= k < i ==> !((#[trigger] s[k]).status is Queued),
    ensures
        first_queued(s) == Some(i),
    decreases s.len(),
{
    let d = s.drop_last();
    if i < s.len() - 1 {
        assert forall|k: int| 0 <= k < i implies !((#[trigger] d[k]).status is Queued) by {
            assert(d[k] == s[k]);
        }
        lemma_first_queued_unique(d, i);
    } else {
        lemma_first_queued(d);
        if first_queued(d) is Some {
            let j = first_queued(d)->0;
            assert(d[j] == s[j]);
        }
    }
}

proof fn lemma_first_queued_none(s: Seq<Job>)
    requires
        forall|k: int| 0 <= k < s.len() ==> !((#[trigger] s[k]).status is Queued),
    ensures
        first_queued(s) is None,
    decreases s.len(),
{
    if s.len() > 0 {
        let d = s.drop_last();
        assert forall|k: int| 0 <= k < d.len() implies !((#[trigger] d[k]).status is Queued) by {
            assert(d[k] == s[k]);
        }
        lemma_first_queued_none(d);
    }
}

pub proof fn lemma_index_of_id_unique(s: Seq<Job>, id: u128, i: int)
    requires
        0 <= i < s.len(),
        s[i].id == id,
        forall|k: int| 0 <= k < i ==> (#[trigger] s[k]).id != id,
    ensures
        index_of_id(s, id) == Some(i),
    decreases s.len(),
{
    let d = s.drop_last();
    if i < s.len() - 1 {
        assert forall|k: int| 0 <= k < i implies (#[trigger] d[k]).id != id by {
            assert(d[k] == s[k]);
        }
        lemma_index_of_id_unique(d, id, i);
    } else {
        lemma_index_of_id(d, id);
        if index_of_id(d, id) is Some {
            let j = index_of_id(d, id)->0;
            assert(d[j] == s[j]);
        }
    }
}

pub proof fn lemma_index_of_id_none(s: Seq<Job>, id: u128)
    requires
        forall|k: int| 0 <= k < s.len() ==> (#[trigger] s[k]).id != id,
    ensures
        index_of_id(s, id) is None,
    decreases s.len(),
{
    if s.len() > 0 {
        let d = s.drop_last();
        assert forall|k: int| 0 <= k < d.len() implies (#[trigger] d[k]).id != id by {
            assert(d[k] == s[k]);
        }
        lemma_index_of_id_none(d, id);
    }
}

/// The jobs of the daemon, in the order they were added.
pub struct JobQueue {
    jobs: Vec<Job>,
}

impl View for JobQueue {
    type V = Seq<Job>;

    closed spec fn view(&self) -> Seq<Job> {
        self.jobs@
    }
}

impl JobQueue {
    pub fn new() -> (q: Self)
        ensures
            q@ == Seq::<Job>::empty(),
    {
        JobQueue { jobs: Vec::new() }
    }

    /// Finds the first job with the given id.
    fn find(&self, id: u128) -> (r: Option<usize>)
        ensures
            match r {
                Some(i) => index_of_id(self@, id) == Some(i as int) && i < self@.len(),
                None => index_of_id(self@, id) is None,
            },
    {
        let mut i: usize = 0;
        while i < self.jobs.len()
            invariant
                i <= self.jobs.len(),
                forall|k: int| 0 <= k < i ==> (#[trigger] self.jobs@[k]).id != id,
            decreases self.jobs.len() - i,
        {
            if self.jobs[i].id == id {
                proof {
                    lemma_index_of_id_unique(self@, id, i as int);
                }
                return Some(i);
            }
            i += 1;
        }
        proof {
            lemma_index_of_id_none(self@, id);
        }
        None
    }

    /// Adds a job at the end of the queue.
    pub fn push(&mut self, job: Job) -> (ev: QueueEvent)
        ensures
            final(self)@ == old(self)@.push(job),
            ev matches QueueEvent::JobAdded(j) && same_job(j, job),
    {
        let ev = QueueEvent::JobAdded(job.duplicate());
        self.jobs.push(job);
        ev
    }

    /// Returns the next queued job, marking it as Running.
    pub fn pop_next(&mut self) -> (r: Option<Job>)
        ensures
            final(self)@ == after_pop(old(self)@),
            r is Some <==> first_queued(old(self)@) is Some,
            r matches Some(j) ==> same_job(j, final(self)@[first_queued(old(self)@)->0]),
    {
        let mut i: usize = 0;
        while i < self.jobs.len()
            invariant
                i <= self.jobs.len(),
                self@ == old(self)@,
                forall|k: int| 0 <= k < i ==> !((#[trigger] self.jobs@[k]).status is Queued),
            decreases self.jobs.len() - i,
        {
            if matches!(self.jobs[i].status, JobStatus::Queued) {
                proof {
                    lemma_first_queued_unique(self@, i as int);
                }
                let mut job = self.jobs.remove(i);
                job.status = JobStatus::Running;
                let copy = job.duplicate();
                self.jobs.insert(i, job);
                return Some(copy);
            }
            i += 1;
        }
        proof {
            lemma_first_queued_none(self@);
        }
        None
    }

    /// Cancels the first job with the given id unless it has already finished.
    /// Returns whether it was cancelled.
    pub fn cancel(&mut self, id: u128) -> (ok: bool)
        ensures
            ok == cancel_succeeds(old(self)@, id),
            final(self)@ == after_cancel(old(self)@, id),
    {
        match self.find(id) {
            Some(i) => {
                if self.jobs[i].status.is_terminal() {
                    false
                } else {
                    let mut job = self.jobs.remove(i);
                    job.status = JobStatus::Cancelled;
                    self.jobs.insert(i, job);
                    true
                }
            },
            None => false,
        }
    }

    /// The first job with the given id, as it now stands.
    pub fn get(&self, id: u128) -> (r: Option<Job>)
        ensures
            r is Some <==> index_of_id(self@, id) is Some,
            r matches Some(j) ==> same_job(j, self@[index_of_id(self@, id)->0]),
    {
        match self.find(id) {
            Some(i) => Some(self.jobs[i].duplicate()),
            None => None,
        }
    }

    /// Sets the progress of the first job with the given id.
    pub fn set_progress(&mut self, id: u128, pct: u8) -> (r: Option<Job>)
        ensures
            final(self)@ == after_progress(old(self)@, id, pct),
            r is Some <==> index_of_id(old(self)@, id) is Some,
            r matches Some(j) ==> same_job(j, final(self)@[index_of_id(old(self)@, id)->0]),
    {
        match self.find(id) {
            Some(i) => {
                let mut job = self.jobs.remove(i);
                job.progress = pct;
                let copy = job.duplicate();
                self.jobs.insert(i, job);
                Some(copy)
            },
            None => None,
        }
    }

    /// Records the end of a run of the first job with the given id: `error`
    /// is `None` when the run succeeded.  A cancelled job stays cancelled.
    pub fn finish(&mut self, id: u128, error: Option<String>, finished_at: i64) -> (r: Option<Job>)
        ensures
            final(self)@ == after_finish(old(self)@, id, error, finished_at),
            r is Some <==> index_of_id(old(self)@, id) is Some,
            r matches Some(j) ==> same_job(j, final(self)@[index_of_id(old(self)@, id)->0]),
    {
        match self.find(id) {
            Some(i) => {
                let mut job = self.jobs.remove(i);
                if !matches!(job.status, JobStatus::Cancelled) {
                    job.status = match error {
                        None => JobStatus::Done,
                        Some(e) => JobStatus::Failed(e),
                    };
                }
                job.progress = 100;
                job.finished_at = Some(finished_at);
                let copy = job.duplicate();
                self.jobs.insert(i, job);
                Some(copy)
            },
            None => None,
        }
    }

    /// Stores the public URL of a finished upload on the first job with the id.
    pub fn record_share(&mut self, id: u128, url: String) -> (r: Option<Job>)
        ensures
            final(self)@ == after_share(old(self)@, id, url),
            r is Some <==> index_of_id(old(self)@, id) is Some,
            r matches Some(j) ==> same_job(j, final(self)@[index_of_id(old(self)@, id)->0]),
    {
        match self.find(id) {
            Some(i) => {
                let mut job = self.jobs.remove(i);
                job.share_url = Some(url);
                job.share_token = None;
                let copy = job.duplicate();
                self.jobs.insert(i, job);
                Some(copy)
            },
            None => None,
        }
    }

    /// Whether the first job with the given id has been cancelled.
    pub fn is_cancelled(&self, id: u128) -> (b: bool)
        ensures
            b == (index_of_id(self@, id) matches Some(i) && self@[i].status is Cancelled),
    {
        match self.find(id) {
            Some(i) => matches!(self.jobs[i].status, JobStatus::Cancelled),
            None => false,
        }
    }

    /// A copy of every job, in order.
    pub fn snapshot(&self) -> (v: Vec<Job>)
        ensures
            v@.len() == self@.len(),
            forall|k: int| 0 <= k < v@.len() ==> same_job(#[trigger] v@[k], self@[k]),
    {
        let mut v: Vec<Job> = Vec::new();
        let mut i: usize = 0;
        while i < self.jobs.len()
            invariant
                i <= self.jobs.len(),
                v@.len() == i,
                forall|k: int| 0 <= k < i ==> same_job(#[trigger] v@[k], self@[k]),
            decreases self.jobs.len() - i,
        {
            v.push(self.jobs[i].duplicate());
            i += 1;
        }
        v
    }
}


// ── Laws ─────────────────────────────────────────────────────────────────────

/// `pop_next` takes the earliest job still queued, and marks it Running.
pub proof fn law_pop_takes_earliest_queued(s: Seq<Job>)
    ensures
        first_queued(s) matches Some(i) ==> {
            &&& 0 <= i < s.len()
            &&& s[i].status is Queued
            &&& forall|k: int| 0 <= k < i ==> !((#[trigger] s[k]).status is Queued)
            &&& after_pop(s)[i].status is Running
            &&& after_pop(s).len() == s.len()
        },
        first_queued(s) is None ==> after_pop(s) == s && forall|k: int|
            0 <= k < s.len() ==> !((#[trigger] s[k]).status is Queued),
{
    lemma_first_queued(s);
}

/// A cancelled job is never handed out by `pop_next` afterwards.
pub proof fn law_cancelled_job_is_not_popped(s: Seq<Job>, id: u128)
    requires
        cancel_succeeds(s, id),
    ensures
        after_cancel(s, id)[index_of_id(s, id)->0].status is Cancelled,
        first_queued(after_cancel(s, id)) != Some(index_of_id(s, id)->0),
{
    lemma_index_of_id(s, id);
    let c = after_cancel(s, id);
    lemma_first_queued(c);
}

/// Cancelling twice is the same as cancelling once, and the second attempt
/// reports failure.
pub proof fn law_cancel_idempotent(s: Seq<Job>, id: u128)
    ensures
        after_cancel(after_cancel(s, id), id) == after_cancel(s, id),
        !cancel_succeeds(after_cancel(s, id), id),
{
    lemma_index_of_id(s, id);
    let c = after_cancel(s, id);
    if cancel_succeeds(s, id) {
        let i = index_of_id(s, id)->0;
        assert forall|k: int| 0 <= k < i implies (#[trigger] c[k]).id != id by {
            assert(c[k] == s[k]);
        }
        lemma_index_of_id_unique(c, id, i);
    }
}

/// Cancelling a job that has already finished changes nothing.
pub proof fn law_cancel_leaves_finished_jobs(s: Seq<Job>, id: u128)
    requires
        index_of_id(s, id) matches Some(i) && status_is_terminal(s[i].status),
    ensures
        after_cancel(s, id) == s,
        !cancel_succeeds(s, id),
{
}

/// The worker's result never overrides a cancellation: a job cancelled while
/// it ran stays cancelled, and every finished job is terminal at 100%.
pub proof fn law_finish_keeps_cancellation(s: Seq<Job>, id: u128, error: Option<String>, at: i64)
    requires
        index_of_id(s, id) is Some,
    ensures
        ({
            let i = index_of_id(s, id)->0;
            let f = after_finish(s, id, error, at);
            &&& s[i].status is Cancelled ==> f[i].status is Cancelled
            &&& !(s[i].status is Cancelled) ==> (f[i].status is Done <==> error is None)
            &&& status_is_terminal(f[i].status)
            &&& f[i].progress == 100
            &&& f[i].finished_at == Some(at)
        }),
{
    lemma_index_of_id(s, id);
}

/// No transition adds, drops or reorders jobs: lengths and ids stay put.
pub proof fn law_transitions_keep_jobs(s: Seq<Job>, id: u128, p: u8, error: Option<String>, at: i64, url: String)
    ensures
        after_pop(s).len() == s.len(),
        after_cancel(s, id).len() == s.len(),
        after_progress(s, id, p).len() == s.len(),
        after_finish(s, id, error, at).len() == s.len(),
        after_share(s, id, url).len() == s.len(),
        forall|k: int| 0 <= k < s.len() ==> {
            &&& (#[trigger] after_pop(s)[k]).id == s[k].id
            &&& after_cancel(s, id)[k].id == s[k].id
            &&& after_progress(s, id, p)[k].id == s[k].id
            &&& after_finish(s, id, error, at)[k].id == s[k].id
            &&& after_share(s, id, url)[k].id == s[k].id
        },
{
    lemma_first_queued(s);
    lemma_index_of_id(s, id);
}

/// A job added under a new id is the one `get` finds under that id, and it
/// is the first job `pop_next` hands out when nothing before it is queued.
pub proof fn law_pushed_job_is_found(s: Seq<Job>, j: Job)
    requires
        index_of_id(s, j.id) is None,
    ensures
        index_of_id(s.push(j), j.id) == Some(s.len() as int),
        s.push(j)[s.len() as int] == j,
        (first_queued(s) is None && j.status is Queued) ==> first_queued(s.push(j)) == Some(s.len() as int),
{
    assert(s.push(j).drop_last() == s);
}

} // verus!
