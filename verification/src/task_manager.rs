//! The scheduling core: pending work, the running-set tracker, the worker
//! pool, and the dispatch decisions that match pending work to available
//! worker slots under a concurrency ceiling.
//!
//! The outside world drives this state machine: a control loop feeds
//! completion signals into [`TaskManager::handle_completion`], asks
//! [`TaskManager::dispatch_next`] for the next decision, and performs the
//! returned action (start the task on the named worker slot, or pause
//! briefly after a re-queue).

use vstd::prelude::*;

use crate::priority_queue::PriorityQueue;
use crate::priority_queue::ge_all;
use crate::str_eq;
use crate::task::Task;
use crate::worker::Worker;
use crate::worker::WorkerStatus;

verus! {

/// Some worker in `ws` may accept a new task.
pub open spec fn has_available(ws: Seq<Worker>) -> bool {
    exists|i: int| 0 <= i < ws.len() && #[trigger] ws[i].status.is_available()
}

/// `k` is the first position in `ws` whose worker may accept a new task.
pub open spec fn is_first_available(ws: Seq<Worker>, k: int) -> bool {
    &&& 0 <= k < ws.len()
    &&& ws[k].status.is_available()
    &&& forall|j: int| 0 <= j < k ==> !(#[trigger] ws[j].status.is_available())
}

/// Some worker in `ws` bears the id `worker_id`.
pub open spec fn has_worker_with_id(ws: Seq<Worker>, worker_id: u128) -> bool {
    exists|i: int| 0 <= i < ws.len() && #[trigger] ws[i].id == worker_id
}

/// `k` is the first position in `ws` whose worker bears the id `worker_id`.
pub open spec fn is_first_with_id(ws: Seq<Worker>, worker_id: u128, k: int) -> bool {
    &&& 0 <= k < ws.len()
    &&& ws[k].id == worker_id
    &&& forall|j: int| 0 <= j < k ==> #[trigger] ws[j].id != worker_id
}

/// Some task in `s` bears the name `name`.
pub open spec fn has_task_named(s: Seq<Task>, name: Seq<char>) -> bool {
    exists|i: int| 0 <= i < s.len() && #[trigger] s[i].name@ == name
}

/// `k` is the first position in `s` whose task bears the name `name`.
pub open spec fn is_first_named(s: Seq<Task>, name: Seq<char>, k: int) -> bool {
    &&& 0 <= k < s.len()
    &&& s[k].name@ == name
    &&& forall|j: int| 0 <= j < k ==> #[trigger] s[j].name@ != name
}

/// What one dispatch decision asks the surrounding control loop to do.
#[derive(Debug, PartialEq, Eq)]
pub enum DispatchAction {
    /// The store held no pending work; nothing changed.
    NoWork,
    /// `task` was taken from the store, recorded as running, and assigned
    /// to the worker slot bearing `worker_id`; the loop must start the
    /// task on that slot's execution context.
    Run { worker_id: u128, task: Task },
    /// The ceiling was reached with no slot available: the extracted item
    /// went back into the store; the loop should pause briefly.
    Requeued,
}

/// The scheduler's state: the pending store, the running-set tracker, the
/// worker pool and the configured ceiling.
pub struct TaskManager {
    /// Work not yet assigned to a worker.
    pub tasks_queue: PriorityQueue,
    /// The record of work currently executing, read by inspection.
    pub running_tasks: Vec<Task>,
    /// The worker slots, in order of creation.
    pub workers: Vec<Worker>,
    /// The maximum number of worker slots that may exist simultaneously.
    pub num_of_max_workers: usize,
}

/// How a completion signal for `worker_id` changes the state: the first
/// worker bearing that id becomes idle; everything else is untouched. A
/// signal bearing an unknown id changes nothing.
pub open spec fn completion_transition(pre: TaskManager, post: TaskManager, worker_id: u128) -> bool {
    &&& post.tasks_queue@ == pre.tasks_queue@
    &&& post.running_tasks@ == pre.running_tasks@
    &&& post.num_of_max_workers == pre.num_of_max_workers
    &&& if has_worker_with_id(pre.workers@, worker_id) {
        exists|k: int|
            #![auto]
            is_first_with_id(pre.workers@, worker_id, k) && post.workers@ == pre.workers@.update(
                k,
                Worker {
                    id: pre.workers@[k].id,
                    idle_time: pre.workers@[k].idle_time,
                    status: WorkerStatus::Idle,
                },
            )
    } else {
        post.workers@ == pre.workers@
    }
}

/// How one dispatch decision changes the state, given that the extracted
/// item stood at position `i` of the pending store.
pub open spec fn dispatch_of_task(
    pre: TaskManager,
    post: TaskManager,
    action: DispatchAction,
    i: int,
) -> bool {
    let t = pre.tasks_queue@[i];
    if has_available(pre.workers@) {
        // An available slot takes the item; no slot is created.
        exists|k: int|
            #![auto]
            {
                &&& is_first_available(pre.workers@, k)
                &&& action == DispatchAction::Run { worker_id: pre.workers@[k].id, task: t }
                &&& post.workers@ == pre.workers@.update(
                    k,
                    Worker {
                        id: pre.workers@[k].id,
                        idle_time: pre.workers@[k].idle_time,
                        status: WorkerStatus::Running,
                    },
                )
                &&& post.running_tasks@ == pre.running_tasks@.push(t)
                &&& post.tasks_queue@ == pre.tasks_queue@.remove(i)
            }
    } else if pre.workers@.len() < pre.num_of_max_workers {
        // Below the ceiling: a slot is created already executing the item.
        &&& post.workers@.len() == pre.workers@.len() + 1
        &&& post.workers@.subrange(0, pre.workers@.len() as int) == pre.workers@
        &&& post.workers@.last().status is Running
        &&& post.workers@.last().idle_time == 0
        &&& action == DispatchAction::Run { worker_id: post.workers@.last().id, task: t }
        &&& post.running_tasks@ == pre.running_tasks@.push(t)
        &&& post.tasks_queue@ == pre.tasks_queue@.remove(i)
    } else {
        // Ceiling reached, no slot free: the item goes back into the store.
        &&& action is Requeued
        &&& post.workers@ == pre.workers@
        &&& post.running_tasks@ == pre.running_tasks@
        &&& post.tasks_queue@ == pre.tasks_queue@.remove(i).push(t)
    }
}

/// How one dispatch decision changes the state: either the store was
/// empty and nothing happened, or an item of greatest pending priority
/// was extracted and handled as [`dispatch_of_task`] says.
pub open spec fn dispatch_transition(
    pre: TaskManager,
    post: TaskManager,
    action: DispatchAction,
) -> bool {
    &&& post.num_of_max_workers == pre.num_of_max_workers
    &&& if pre.tasks_queue@.len() == 0 {
        action is NoWork && post == pre
    } else {
        exists|i: int|
            #![auto]
            {
                &&& 0 <= i < pre.tasks_queue@.len()
                &&& ge_all(pre.tasks_queue@[i], pre.tasks_queue@)
                &&& dispatch_of_task(pre, post, action, i)
            }
    }
}

impl TaskManager {
    /// The pool never outgrows the configured ceiling.
    pub open spec fn wf(&self) -> bool {
        self.workers@.len() <= self.num_of_max_workers
    }

    /// A scheduler with no pending work, no running work and no workers,
    /// bounded by the given ceiling.
    pub fn new(num_of_worker_threads: usize) -> (r: Self)
        ensures
            r.tasks_queue@.len() == 0,
            r.running_tasks@.len() == 0,
            r.workers@.len() == 0,
            r.num_of_max_workers == num_of_worker_threads,
            r.wf(),
    {
        TaskManager {
            num_of_max_workers: num_of_worker_threads,
            tasks_queue: PriorityQueue::new(),
            running_tasks: Vec::new(),
            workers: Vec::new(),
        }
    }

    /// Submission: the new task joins the pending store; nothing else
    /// changes. Submission is never blocked or rejected.
    pub fn create_task(&mut self, new_task: Task)
        ensures
            final(self).tasks_queue@ == old(self).tasks_queue@.push(new_task),
            final(self).running_tasks@ == old(self).running_tasks@,
            final(self).workers@ == old(self).workers@,
            final(self).num_of_max_workers == old(self).num_of_max_workers,
    {
        self.tasks_queue.enqueue(new_task);
    }

    /// Inspection: a point-in-time copy of the running set.
    pub fn get_running_tasks(&self) -> (r: Vec<Task>)
        ensures
            r@ == self.running_tasks@,
    {
        let mut copy: Vec<Task> = Vec::new();
        let mut i: usize = 0;
        while i < self.running_tasks.len()
            invariant
                i <= self.running_tasks@.len(),
                copy@.len() == i,
                forall|k: int| 0 <= k < i ==> copy@[k] == self.running_tasks@[k],
            decreases self.running_tasks@.len() - i,
        {
            copy.push(self.running_tasks[i].clone());
            i += 1;
        }
        proof {
            assert(copy@ =~= self.running_tasks@);
        }
        copy
    }

    /// Records that a task has begun executing: it is appended to the
    /// running set; nothing else changes.
    pub fn record_start(&mut self, task: Task)
        ensures
            final(self).running_tasks@ == old(self).running_tasks@.push(task),
            final(self).tasks_queue@ == old(self).tasks_queue@,
            final(self).workers@ == old(self).workers@,
            final(self).num_of_max_workers == old(self).num_of_max_workers,
    {
        self.running_tasks.push(task);
    }

    /// Records that a task has finished: the first running entry bearing
    /// the name is removed; when none bears it the call is a no-op, which
    /// guards against double-completion signals. Nothing else changes.
    #[verifier::loop_isolation(false)]
    pub fn record_finish(&mut self, name: &str)
        ensures
            finish_transition(old(self).running_tasks@, final(self).running_tasks@, name@),
            final(self).tasks_queue@ == old(self).tasks_queue@,
            final(self).workers@ == old(self).workers@,
            final(self).num_of_max_workers == old(self).num_of_max_workers,
    {
        let ghost pre = self.running_tasks@;
        let n = self.running_tasks.len();
        let mut i: usize = 0;
        while i < n
            invariant
                n == self.running_tasks@.len(),
                self.running_tasks@ == pre,
                self.tasks_queue == old(self).tasks_queue,
                self.workers == old(self).workers,
                self.num_of_max_workers == old(self).num_of_max_workers,
                i <= n,
                forall|j: int| 0 <= j < i ==> #[trigger] pre[j].name@ != name@,
            decreases n - i,
        {
            if str_eq(self.running_tasks[i].get_name(), name) {
                self.running_tasks.remove(i);
                proof {
                    assert(is_first_named(pre, name@, i as int));
                    assert(has_task_named(pre, name@));
                    assert(self.running_tasks@ == pre.remove(i as int));
                }
                return;
            }
            i += 1;
        }
    }

    /// Applies a completion signal: the first worker bearing the reported
    /// id becomes idle and may accept a new task; a signal bearing an
    /// unknown id changes nothing.
    pub fn handle_completion(&mut self, worker_id: u128)
        ensures
            completion_transition(*old(self), *final(self), worker_id),
            final(self).workers@.len() == old(self).workers@.len(),
    {
        let ghost pre = *self;
        match find_first_with_id(&self.workers, worker_id) {
            Some(k) => {
                let mut w = self.workers[k];
                w.set_status(WorkerStatus::Idle);
                self.workers[k] = w;
                proof {
                    assert(is_first_with_id(pre.workers@, worker_id, k as int));
                    assert(pre.workers@[k as int].id == worker_id);
                }
            },
            None => {},
        }
    }

    /// One dispatch decision: extract a highest-priority pending item, if
    /// any, and either hand it to the first available worker, create a
    /// worker for it while the pool is below the ceiling, or put it back
    /// when the ceiling is reached with no worker free. A dispatched item
    /// is recorded as running before the action is returned. The pool
    /// never shrinks, and a well-formed scheduler stays well-formed: no
    /// worker is ever created beyond the ceiling.
    pub fn dispatch_next(&mut self) -> (r: DispatchAction)
        ensures
            dispatch_transition(*old(self), *final(self), r),
            old(self).wf() ==> final(self).wf(),
            final(self).workers@.len() >= old(self).workers@.len(),
    {
        let ghost pre = *self;
        let task_option = self.tasks_queue.get();
        match task_option {
            None => DispatchAction::NoWork,
            Some(task) => {
                let ghost qi = choose|i: int|
                    0 <= i < pre.tasks_queue@.len() && Some(task) == Some(pre.tasks_queue@[i])
                        && self.tasks_queue@ == pre.tasks_queue@.remove(i);
                match find_first_available(&self.workers) {
                    Some(k) => {
                        let worker_id = self.workers[k].get_id();
                        let mut w = self.workers[k];
                        w.set_status(WorkerStatus::Running);
                        self.workers[k] = w;
                        self.record_start(task.clone());
                        let r = DispatchAction::Run { worker_id, task };
                        proof {
                            assert(dispatch_of_task(pre, *self, r, qi));
                        }
                        r
                    },
                    None => {
                        if self.workers.len() < self.num_of_max_workers {
                            let mut new_worker = Worker::new();
                            new_worker.set_status(WorkerStatus::Running);
                            let worker_id = new_worker.get_id();
                            self.workers.push(new_worker);
                            self.record_start(task.clone());
                            let r = DispatchAction::Run { worker_id, task };
                            proof {
                                assert(self.workers@.subrange(0, pre.workers@.len() as int)
                                    =~= pre.workers@);
                                assert(dispatch_of_task(pre, *self, r, qi));
                            }
                            r
                        } else {
                            self.tasks_queue.enqueue(task);
                            proof {
                                assert(dispatch_of_task(pre, *self, DispatchAction::Requeued, qi));
                            }
                            DispatchAction::Requeued
                        }
                    },
                }
            },
        }
    }

    /// Law: one dispatch pass — dispatching until the store runs dry or
    /// the ceiling blocks — moves exactly `min(pending, capacity)` items
    /// into the running set, where the capacity is the count of available
    /// workers plus the slots not yet created. In particular, with the
    /// ceiling at `n` and more than `n` items pending on a fresh
    /// scheduler, exactly `n` are dispatched and the rest stay pending.
    pub fn dispatch_pass(&mut self) -> (actions: Vec<DispatchAction>)
        requires
            old(self).wf(),
        ensures
            final(self).wf(),
            final(self).num_of_max_workers == old(self).num_of_max_workers,
            actions@.len() == vstd::math::min(
                old(self).tasks_queue@.len() as int,
                capacity(*old(self)),
            ),
            final(self).tasks_queue@.len() == old(self).tasks_queue@.len() - actions@.len(),
            final(self).running_tasks@.len() == old(self).running_tasks@.len() + actions@.len(),
            forall|i: int| 0 <= i < actions@.len() ==> actions@[i] is Run,
    {
        let mut actions: Vec<DispatchAction> = Vec::new();
        loop
            invariant
                self.wf(),
                self.num_of_max_workers == old(self).num_of_max_workers,
                actions@.len() <= old(self).tasks_queue@.len(),
                self.tasks_queue@.len() == old(self).tasks_queue@.len() - actions@.len(),
                self.running_tasks@.len() == old(self).running_tasks@.len() + actions@.len(),
                capacity(*self) == capacity(*old(self)) - actions@.len(),
                capacity(*self) >= 0,
                forall|i: int| 0 <= i < actions@.len() ==> actions@[i] is Run,
            decreases self.tasks_queue@.len(),
        {
            let ghost mid = *self;
            let a = self.dispatch_next();
            if matches!(a, DispatchAction::Run { .. }) {
                proof {
                    let i = choose|i: int|
                        #![auto]
                        {
                            &&& 0 <= i < mid.tasks_queue@.len()
                            &&& ge_all(mid.tasks_queue@[i], mid.tasks_queue@)
                            &&& dispatch_of_task(mid, *self, a, i)
                        };
                    if has_available(mid.workers@) {
                        let k = choose|k: int|
                            #![auto]
                            {
                                &&& is_first_available(mid.workers@, k)
                                &&& self.workers@ == mid.workers@.update(
                                    k,
                                    Worker {
                                        id: mid.workers@[k].id,
                                        idle_time: mid.workers@[k].idle_time,
                                        status: WorkerStatus::Running,
                                    },
                                )
                            };
                        lemma_count_available_update_unavailable(
                            mid.workers@,
                            k,
                            Worker {
                                id: mid.workers@[k].id,
                                idle_time: mid.workers@[k].idle_time,
                                status: WorkerStatus::Running,
                            },
                        );
                    } else {
                        assert(self.workers@ =~= mid.workers@.push(self.workers@.last()));
                        lemma_count_available_push(mid.workers@, self.workers@.last());
                    }
                }
                actions.push(a);
            } else {
                proof {
                    if a is Requeued {
                        let i = choose|i: int|
                            #![auto]
                            {
                                &&& 0 <= i < mid.tasks_queue@.len()
                                &&& ge_all(mid.tasks_queue@[i], mid.tasks_queue@)
                                &&& dispatch_of_task(mid, *self, a, i)
                            };
                        lemma_count_available_zero(mid.workers@);
                        assert(capacity(mid) == 0);
                    }
                }
                return actions;
            }
        }
    }
}

/// How many workers in `ws` may accept a new task.
pub open spec fn count_available(ws: Seq<Worker>) -> nat
    decreases ws.len(),
{
    if ws.len() == 0 {
        0
    } else {
        count_available(ws.drop_last()) + (if ws.last().status.is_available() {
            1nat
        } else {
            0nat
        })
    }
}

/// How many items the scheduler can dispatch before the ceiling blocks
/// it: the available workers plus the slots not yet created.
pub open spec fn capacity(s: TaskManager) -> int {
    count_available(s.workers@) + s.num_of_max_workers - s.workers@.len()
}

proof fn lemma_count_available_zero(ws: Seq<Worker>)
    ensures
        count_available(ws) == 0 <==> !has_available(ws),
    decreases ws.len(),
{
    if ws.len() > 0 {
        lemma_count_available_zero(ws.drop_last());
        if ws.last().status.is_available() {
            assert(ws[ws.len() - 1].status.is_available());
        } else {
            if has_available(ws) {
                let i = choose|i: int| 0 <= i < ws.len() && #[trigger] ws[i].status.is_available();
                assert(ws.drop_last()[i].status.is_available());
            }
            if has_available(ws.drop_last()) {
                let i = choose|i: int|
                    0 <= i < ws.drop_last().len()
                        && #[trigger] ws.drop_last()[i].status.is_available();
                assert(ws[i].status.is_available());
            }
        }
    }
}

proof fn lemma_count_available_update_unavailable(ws: Seq<Worker>, k: int, w: Worker)
    requires
        0 <= k < ws.len(),
        ws[k].status.is_available(),
        !w.status.is_available(),
    ensures
        count_available(ws.update(k, w)) == count_available(ws) - 1,
    decreases ws.len(),
{
    let upd = ws.update(k, w);
    if k == ws.len() - 1 {
        assert(upd.drop_last() =~= ws.drop_last());
    } else {
        assert(upd.drop_last() =~= ws.drop_last().update(k, w));
        assert(upd.last() == ws.last());
        lemma_count_available_update_unavailable(ws.drop_last(), k, w);
    }
}

proof fn lemma_count_available_push(ws: Seq<Worker>, w: Worker)
    requires
        !w.status.is_available(),
    ensures
        count_available(ws.push(w)) == count_available(ws),
{
    assert(ws.push(w).drop_last() =~= ws);
    assert(ws.push(w).last() == w);
}

/// How recording a finish for `name` changes the running set: the first
/// entry bearing the name leaves; with no such entry nothing changes.
pub open spec fn finish_transition(pre: Seq<Task>, post: Seq<Task>, name: Seq<char>) -> bool {
    if has_task_named(pre, name) {
        exists|k: int| #![auto] is_first_named(pre, name, k) && post == pre.remove(k)
    } else {
        post == pre
    }
}

/// The first worker that may accept a new task, if any.
fn find_first_available(workers: &Vec<Worker>) -> (r: Option<usize>)
    ensures
        match r {
            Some(k) => is_first_available(workers@, k as int),
            None => !has_available(workers@),
        },
{
    let mut k: usize = 0;
    while k < workers.len()
        invariant
            k <= workers@.len(),
            forall|j: int| 0 <= j < k ==> !(#[trigger] workers@[j].status.is_available()),
        decreases workers@.len() - k,
    {
        let st = workers[k].get_status();
        if matches!(st, WorkerStatus::Ready | WorkerStatus::Idle) {
            return Some(k);
        }
        k += 1;
    }
    None
}

/// The first worker bearing the given id, if any.
fn find_first_with_id(workers: &Vec<Worker>, worker_id: u128) -> (r: Option<usize>)
    ensures
        match r {
            Some(k) => is_first_with_id(workers@, worker_id, k as int),
            None => !has_worker_with_id(workers@, worker_id),
        },
{
    let mut k: usize = 0;
    while k < workers.len()
        invariant
            k <= workers@.len(),
            forall|j: int| 0 <= j < k ==> #[trigger] workers@[j].id != worker_id,
        decreases workers@.len() - k,
    {
        if workers[k].get_id() == worker_id {
            return Some(k);
        }
        k += 1;
    }
    None
}

/// Law: after a finish is recorded for a name borne by at most one
/// running entry, recording the same finish again is a no-op: it removes
/// no unrelated entry. (Names are not guaranteed unique; when several
/// running entries share the name, each call removes one of them.)
pub proof fn lemma_record_finish_idempotent(
    pre: Seq<Task>,
    mid: Seq<Task>,
    post: Seq<Task>,
    name: Seq<char>,
)
    requires
        forall|i: int, j: int|
            0 <= i < pre.len() && 0 <= j < pre.len() && #[trigger] pre[i].name@ == name
                && #[trigger] pre[j].name@ == name ==> i == j,
        finish_transition(pre, mid, name),
        finish_transition(mid, post, name),
    ensures
        post == mid,
{
    if has_task_named(pre, name) {
        let k = choose|k: int| #![auto] is_first_named(pre, name, k) && mid == pre.remove(k);
        assert forall|l: int| 0 <= l < mid.len() implies #[trigger] mid[l].name@ != name by {
            if l < k {
                assert(mid[l] == pre[l]);
            } else {
                assert(mid[l] == pre[l + 1]);
            }
        }
        assert(!has_task_named(mid, name));
    } else {
        assert(mid == pre);
        assert(!has_task_named(mid, name));
    }
}

/// Law: when the pool is full and a completion signal bearing a live
/// worker's id arrives, the next dispatch of a pending item hands it to
/// an existing worker: it is dispatched, and no worker is created beyond
/// the ceiling.
pub proof fn lemma_completion_frees_slot(
    pre: TaskManager,
    mid: TaskManager,
    post: TaskManager,
    worker_id: u128,
    action: DispatchAction,
)
    requires
        has_worker_with_id(pre.workers@, worker_id),
        pre.tasks_queue@.len() > 0,
        completion_transition(pre, mid, worker_id),
        dispatch_transition(mid, post, action),
    ensures
        action is Run,
        post.workers@.len() == pre.workers@.len(),
{
    let k = choose|k: int|
        #![auto]
        is_first_with_id(pre.workers@, worker_id, k) && mid.workers@ == pre.workers@.update(
            k,
            Worker {
                id: pre.workers@[k].id,
                idle_time: pre.workers@[k].idle_time,
                status: WorkerStatus::Idle,
            },
        );
    assert(mid.workers@[k].status.is_available());
    assert(has_available(mid.workers@));
    let i = choose|i: int|
        #![auto]
        {
            &&& 0 <= i < mid.tasks_queue@.len()
            &&& ge_all(mid.tasks_queue@[i], mid.tasks_queue@)
            &&& dispatch_of_task(mid, post, action, i)
        };
    let j = choose|j: int|
        #![auto]
        {
            &&& is_first_available(mid.workers@, j)
            &&& post.workers@ == mid.workers@.update(
                j,
                Worker {
                    id: mid.workers@[j].id,
                    idle_time: mid.workers@[j].idle_time,
                    status: WorkerStatus::Running,
                },
            )
        };
    assert(post.workers@.len() == mid.workers@.len());
}

} // verus!
