//! The batch orchestrator's decisions: which pipeline stages run and in
//! which fixed order, how the repository list is cut into batches, and the
//! scheduler that keeps the number of simultaneously in-flight
//! repositories under a hard cap - excess work queues rather than
//! spawning unbounded tasks.

use vstd::prelude::*;

verus! {

/// One stage of the pipeline, as selected on the batch level.
#[derive(Clone, Copy, Debug, PartialEq, Eq, Structural)]
pub enum CollectorTask {
    CloneRepos,
    CollectMetrics,
    FilterMetrics,
    DeleteTmp,
}

/// The stages a run performs, in the pipeline's fixed order:
/// clone, collect, filter, delete.
pub open spec fn task_list(clone_repos: bool, metrics: bool, filter: bool, delete: bool) -> Seq<
    CollectorTask,
> {
    let c = if clone_repos {
        seq![CollectorTask::CloneRepos]
    } else {
        Seq::<CollectorTask>::empty()
    };
    let m = if metrics {
        seq![CollectorTask::CollectMetrics]
    } else {
        Seq::<CollectorTask>::empty()
    };
    let f = if filter {
        seq![CollectorTask::FilterMetrics]
    } else {
        Seq::<CollectorTask>::empty()
    };
    let d = if delete {
        seq![CollectorTask::DeleteTmp]
    } else {
        Seq::<CollectorTask>::empty()
    };
    c + m + f + d
}

/// Builds the list of stages a run performs from the caller's selection,
/// keeping the fixed stage order whatever the selection.
pub fn tasks_for(clone_repos: bool, metrics: bool, filter: bool, delete: bool) -> (r: Vec<
    CollectorTask,
>)
    ensures
        r@ == task_list(clone_repos, metrics, filter, delete),
{
    let mut r: Vec<CollectorTask> = Vec::new();
    if clone_repos {
        r.push(CollectorTask::CloneRepos);
    }
    if metrics {
        r.push(CollectorTask::CollectMetrics);
    }
    if filter {
        r.push(CollectorTask::FilterMetrics);
    }
    if delete {
        r.push(CollectorTask::DeleteTmp);
    }
    proof {
        assert(r@ =~= task_list(clone_repos, metrics, filter, delete));
    }
    r
}

/// The batches laid end to end.
pub open spec fn flatten_batches(bs: Seq<Seq<String>>) -> Seq<String>
    decreases bs,
{
    if bs.len() == 0 {
        Seq::<String>::empty()
    } else {
        bs[0] + flatten_batches(bs.drop_first())
    }
}

/// Appending one batch appends its repositories.
proof fn lemma_flatten_push(bs: Seq<Seq<String>>, x: Seq<String>)
    ensures
        flatten_batches(bs.push(x)) == flatten_batches(bs) + x,
    decreases bs,
{
    if bs.len() == 0 {
        assert(bs.push(x)[0] == x);
        assert(bs.push(x).drop_first() =~= Seq::<Seq<String>>::empty());
        assert(flatten_batches(Seq::<Seq<String>>::empty()) == Seq::<String>::empty());
        assert(flatten_batches(bs.push(x)) =~= flatten_batches(bs) + x);
    } else {
        lemma_flatten_push(bs.drop_first(), x);
        assert(bs.push(x)[0] == bs[0]);
        assert(bs.push(x).drop_first() =~= bs.drop_first().push(x));
        assert(flatten_batches(bs.push(x)) =~= flatten_batches(bs) + x);
    }
}

/// Partitions the repository list into batches: all of them full but the
/// last, nothing lost, nothing reordered, nothing duplicated.
pub fn make_batches(repos: &Vec<String>, batch_size: usize) -> (r: Vec<Vec<String>>)
    requires
        batch_size >= 1,
    ensures
        flatten_batches(r@.map_values(|v: Vec<String>| v@)) == repos@,
        forall|k: int| 0 <= k < r@.len() ==> 1 <= (#[trigger] r@[k])@.len() <= batch_size,
        forall|k: int| 0 <= k < r@.len() - 1 ==> (#[trigger] r@[k])@.len() == batch_size,
{
    let mut r: Vec<Vec<String>> = Vec::new();
    let mut cur: Vec<String> = Vec::new();
    let mut i: usize = 0;
    while i < repos.len()
        invariant
            i <= repos.len(),
            batch_size >= 1,
            cur@.len() < batch_size,
            flatten_batches(r@.map_values(|v: Vec<String>| v@)) + cur@ =~= repos@.take(i as int),
            forall|k: int| 0 <= k < r@.len() ==> (#[trigger] r@[k])@.len() == batch_size,
        decreases repos.len() - i,
    {
        cur.push(repos[i].clone());
        proof {
            assert(repos@.take(i + 1) =~= repos@.take(i as int).push(repos@[i as int]));
        }
        if cur.len() == batch_size {
            let ghost pre = r@.map_values(|v: Vec<String>| v@);
            let full = cur;
            cur = Vec::new();
            r.push(full);
            proof {
                assert(r@.map_values(|v: Vec<String>| v@) =~= pre.push(full@));
                lemma_flatten_push(pre, full@);
                assert(flatten_batches(r@.map_values(|v: Vec<String>| v@)) + cur@ =~= repos@.take(
                    i + 1,
                ));
            }
        }
        i = i + 1;
    }
    if cur.len() > 0 {
        let ghost pre = r@.map_values(|v: Vec<String>| v@);
        let ghost tail = cur@;
        r.push(cur);
        proof {
            assert(r@.map_values(|v: Vec<String>| v@) =~= pre.push(tail));
            lemma_flatten_push(pre, tail);
            assert(repos@.take(repos@.len() as int) =~= repos@);
            assert(flatten_batches(r@.map_values(|v: Vec<String>| v@)) =~= repos@);
        }
    } else {
        proof {
            assert(repos@.take(repos@.len() as int) =~= repos@);
            assert(flatten_batches(r@.map_values(|v: Vec<String>| v@)) + cur@ =~= repos@);
            assert(flatten_batches(r@.map_values(|v: Vec<String>| v@)) =~= repos@);
        }
    }
    r
}

/// Progress is reported at the granularity of one unit per repository and
/// requested stage.
pub fn progress_total(n_repos: usize, n_tasks: usize) -> (r: Option<u64>)
    ensures
        r matches Some(t) ==> t == n_repos * n_tasks,
        r is None <==> n_repos * n_tasks > u64::MAX,
{
    (n_repos as u64).checked_mul(n_tasks as u64)
}

/// Model of the repository scheduler: how many repositories still queue,
/// how many are in flight, how many are finished, against the hard cap.
pub ghost struct SchedulerV {
    pub cap: int,
    pub queued: int,
    pub running: int,
    pub finished: int,
}

/// The scheduler's invariant: the cap is positive and the number of
/// in-flight repositories never passes it.
pub open spec fn sched_wf(s: SchedulerV) -> bool {
    &&& s.cap >= 1
    &&& 0 <= s.running <= s.cap
    &&& s.queued >= 0
    &&& s.finished >= 0
}

/// One scheduler event: a queued repository starts, or an in-flight one
/// finishes.
#[derive(Clone, Copy, Debug, PartialEq, Eq, Structural)]
pub enum SchedOp {
    Start,
    Finish,
}

/// One step of the scheduler. A start only happens below the cap - excess
/// work stays queued - and a finish frees one slot.
pub open spec fn sched_step(s: SchedulerV, op: SchedOp) -> SchedulerV {
    match op {
        SchedOp::Start => if s.queued > 0 && s.running < s.cap {
            SchedulerV { queued: s.queued - 1, running: s.running + 1, ..s }
        } else {
            s
        },
        SchedOp::Finish => if s.running > 0 {
            SchedulerV { running: s.running - 1, finished: s.finished + 1, ..s }
        } else {
            s
        },
    }
}

/// The scheduler after a whole sequence of events.
pub open spec fn sched_run(s: SchedulerV, ops: Seq<SchedOp>) -> SchedulerV
    decreases ops.len(),
{
    if ops.len() == 0 {
        s
    } else {
        sched_run(sched_step(s, ops[0]), ops.drop_first())
    }
}

/// The concurrency bound holds at every point: whatever events arrive in
/// whatever order, a well-formed scheduler stays well-formed, and the
/// number of simultaneously in-flight repositories never passes the cap.
pub proof fn lemma_concurrency_bounded(s: SchedulerV, ops: Seq<SchedOp>)
    requires
        sched_wf(s),
    ensures
        sched_wf(sched_run(s, ops)),
        sched_run(s, ops).running <= s.cap,
        sched_run(s, ops).cap == s.cap,
    decreases ops.len(),
{
    if ops.len() > 0 {
        lemma_concurrency_bounded(sched_step(s, ops[0]), ops.drop_first());
    }
}

/// The scheduler that drives one batch with bounded concurrency.
pub struct Scheduler {
    pub cap: usize,
    pub queued: usize,
    pub running: usize,
    pub finished: usize,
}

impl View for Scheduler {
    type V = SchedulerV;

    open spec fn view(&self) -> SchedulerV {
        SchedulerV {
            cap: self.cap as int,
            queued: self.queued as int,
            running: self.running as int,
            finished: self.finished as int,
        }
    }
}

impl Scheduler {
    /// A fresh scheduler: everything queued, nothing in flight.
    pub fn new(cap: usize, queued: usize) -> (r: Scheduler)
        requires
            cap >= 1,
        ensures
            r@ == (SchedulerV { cap: cap as int, queued: queued as int, running: 0, finished: 0 }),
            sched_wf(r@),
    {
        Scheduler { cap, queued, running: 0, finished: 0 }
    }

    /// Whether a queued repository may start now.
    pub fn can_start(&self) -> (r: bool)
        ensures
            r == (self@.queued > 0 && self@.running < self@.cap),
    {
        self.queued > 0 && self.running < self.cap
    }

    /// Takes one repository from the queue into flight.
    pub fn start_one(&mut self)
        requires
            sched_wf(old(self)@),
            old(self)@.queued > 0,
            old(self)@.running < old(self)@.cap,
        ensures
            final(self)@ == sched_step(old(self)@, SchedOp::Start),
            sched_wf(final(self)@),
    {
        self.queued = self.queued - 1;
        self.running = self.running + 1;
    }

    /// Retires one in-flight repository.
    pub fn finish_one(&mut self)
        requires
            sched_wf(old(self)@),
            old(self)@.running > 0,
            old(self)@.finished < usize::MAX,
        ensures
            final(self)@ == sched_step(old(self)@, SchedOp::Finish),
            sched_wf(final(self)@),
    {
        self.running = self.running - 1;
        self.finished = self.finished + 1;
    }
}

} // verus!
