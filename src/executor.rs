use crate::ready_queue::ReadyQueue;
use vstd::prelude::*;

verus! {

/// The usual capacity of a ready queue.
pub const READY_CAPACITY: usize = 1024;

/// Index of a task in its executor.
pub type TaskId = usize;

/// Where a task stands.
#[derive(PartialEq, Eq, Structural, Debug, Clone, Copy)]
pub enum TaskStatus {
    /// In the ready queue, waiting to be resumed.
    Queued,
    /// Taken off the queue and being resumed.
    Running,
    /// Suspended; its wake callback is held by a wake source.
    Waiting,
    /// Finished; it is never resumed again.
    Terminal,
}

/// What one resumption of a computation reports.
#[derive(PartialEq, Eq, Structural, Debug, Clone, Copy)]
pub enum Step {
    /// The computation finished.
    Done,
    /// Suspended, and asks to be resumed again right away.
    Yield,
    /// Suspended, and has handed its wake callback to a wake source.
    Wait,
}

/// What a poll of a future amounts to: it finished; or it is pending and
/// either woke itself while being polled (a yield) or left its waker with a
/// wake source.
pub fn step_of_poll(ready: bool, woken_while_polled: bool) -> (r: Step)
    ensures
        ready ==> r == Step::Done,
        !ready && woken_while_polled ==> r == Step::Yield,
        !ready && !woken_while_polled ==> r == Step::Wait,
{
    if ready {
        Step::Done
    } else if woken_while_polled {
        Step::Yield
    } else {
        Step::Wait
    }
}

#[derive(PartialEq, Eq, Structural, Debug, Clone, Copy)]
pub enum SpawnError {
    /// The ready queue is at capacity; no task was created.
    QueueFull,
}

/// The executor's state as mathematics: the status of each task, and the
/// ready queue of task ids.
pub struct ExecutorView {
    pub status: Seq<TaskStatus>,
    pub ready: Seq<TaskId>,
}

pub open spec fn spawn_spec(v: ExecutorView) -> ExecutorView {
    ExecutorView { status: v.status.push(TaskStatus::Queued), ready: v.ready.push(v.status.len() as TaskId) }
}

/// The task that the next dequeue resumes, if any.
pub open spec fn next_task(v: ExecutorView) -> Option<TaskId> {
    if v.ready.len() == 0 {
        None
    } else {
        Some(v.ready[0])
    }
}

pub open spec fn next_spec(v: ExecutorView) -> ExecutorView {
    if v.ready.len() == 0 {
        v
    } else {
        ExecutorView { status: v.status.update(v.ready[0] as int, TaskStatus::Running), ready: v.ready.drop_first() }
    }
}

pub open spec fn complete_spec(v: ExecutorView, id: TaskId, step: Step) -> ExecutorView {
    match step {
        Step::Done => ExecutorView { status: v.status.update(id as int, TaskStatus::Terminal), ready: v.ready },
        Step::Yield => ExecutorView { status: v.status.update(id as int, TaskStatus::Queued), ready: v.ready.push(id) },
        Step::Wait => ExecutorView { status: v.status.update(id as int, TaskStatus::Waiting), ready: v.ready },
    }
}

pub open spec fn wake_spec(v: ExecutorView, id: TaskId) -> ExecutorView {
    if id < v.status.len() && v.status[id as int] == TaskStatus::Waiting {
        ExecutorView { status: v.status.update(id as int, TaskStatus::Queued), ready: v.ready.push(id) }
    } else {
        v
    }
}

/// The executor's invariant: the queue holds each queued task exactly once and
/// nothing else, so no task is suspended without a way to be resumed.
pub open spec fn view_wf(v: ExecutorView) -> bool {
    &&& v.ready.no_duplicates()
    &&& forall|i: int| 0 <= i < v.ready.len() ==> #[trigger] v.ready[i] < v.status.len()
    &&& forall|i: int| 0 <= i < v.ready.len() ==> v.status[#[trigger] v.ready[i] as int] == TaskStatus::Queued
    &&& forall|id: TaskId| id < v.status.len() && v.status[id as int] == TaskStatus::Queued
        ==> v.ready.contains(id)
}

/// A single-threaded scheduler of tasks, resumed in the order they become
/// ready.
pub struct Executor {
    status: Vec<TaskStatus>,
    ready: ReadyQueue<TaskId>,
}

impl Executor {
    pub closed spec fn view(&self) -> ExecutorView {
        ExecutorView { status: self.status@, ready: self.ready@ }
    }

    pub closed spec fn spec_capacity(&self) -> nat {
        self.ready.spec_capacity()
    }

    pub open spec fn wf(&self) -> bool {
        view_wf(self@)
    }

    /// An executor without tasks whose ready queue admits `capacity` spawns.
    pub fn new(capacity: usize) -> (r: Self)
        ensures
            r.wf(),
            r@.status == Seq::<TaskStatus>::empty(),
            r@.ready == Seq::<TaskId>::empty(),
            r.spec_capacity() == capacity,
    {
        Executor { status: Vec::new(), ready: ReadyQueue::new(capacity) }
    }

    pub fn status(&self, id: TaskId) -> (r: Option<TaskStatus>)
        ensures
            id < self@.status.len() ==> r == Some(self@.status[id as int]),
            id >= self@.status.len() ==> r is None,
    {
        if id < self.status.len() {
            Some(self.status[id])
        } else {
            None
        }
    }

    pub fn num_tasks(&self) -> (r: usize)
        ensures
            r == self@.status.len(),
    {
        self.status.len()
    }

    pub fn num_ready(&self) -> (r: usize)
        ensures
            r == self@.ready.len(),
    {
        self.ready.len()
    }

    /// Creates a task and puts it at the back of the ready queue. When the
    /// queue is at capacity the spawn fails and nothing changes.
    pub fn spawn(&mut self) -> (r: Result<TaskId, SpawnError>)
        requires
            old(self).wf(),
            old(self)@.status.len() < usize::MAX,
        ensures
            final(self).wf(),
            final(self).spec_capacity() == old(self).spec_capacity(),
            old(self)@.ready.len() < old(self).spec_capacity() ==> r == Ok::<TaskId, SpawnError>(
                old(self)@.status.len() as TaskId,
            ) && final(self)@ == spawn_spec(old(self)@),
            old(self)@.ready.len() >= old(self).spec_capacity() ==> r == Err::<TaskId, SpawnError>(
                SpawnError::QueueFull,
            ) && final(self)@ == old(self)@,
    {
        let id = self.status.len();
        if self.ready.is_full() {
            return Err(SpawnError::QueueFull);
        }
        let _ = self.ready.push(id);
        self.status.push(TaskStatus::Queued);
        proof {
            lemma_spawn_wf(old(self)@);
            assert(self@ == spawn_spec(old(self)@));
        }
        Ok(id)
    }

    /// Takes the task at the front of the ready queue and marks it running.
    pub fn next(&mut self) -> (r: Option<TaskId>)
        requires
            old(self).wf(),
        ensures
            final(self).wf(),
            final(self).spec_capacity() == old(self).spec_capacity(),
            r == next_task(old(self)@),
            final(self)@ == next_spec(old(self)@),
    {
        let r = self.ready.pop();
        match r {
            Some(id) => {
                proof {
                    assert(old(self)@.ready[0] < old(self)@.status.len());
                }
                self.status.set(id, TaskStatus::Running);
                proof {
                    lemma_next_wf(old(self)@);
                    assert(self@ == next_spec(old(self)@));
                }
                Some(id)
            },
            None => None,
        }
    }

    /// Records what the resumption of the running task `id` reported: it
    /// finished, it yielded and goes to the back of the queue, or it waits for
    /// a wake source.
    pub fn complete(&mut self, id: TaskId, step: Step)
        requires
            old(self).wf(),
            id < old(self)@.status.len(),
            old(self)@.status[id as int] == TaskStatus::Running,
        ensures
            final(self).wf(),
            final(self).spec_capacity() == old(self).spec_capacity(),
            final(self)@ == complete_spec(old(self)@, id, step),
    {
        match step {
            Step::Done => {
                self.status.set(id, TaskStatus::Terminal);
            },
            Step::Yield => {
                self.status.set(id, TaskStatus::Queued);
                self.ready.push_unbounded(id);
            },
            Step::Wait => {
                self.status.set(id, TaskStatus::Waiting);
            },
        }
        proof {
            let v = self@;
            let o = old(self)@;
            assert forall|i: int| 0 <= i < o.ready.len() implies o.ready[i] != id by {
                assert(o.status[o.ready[i] as int] == TaskStatus::Queued);
            }
            lemma_requeue_wf(o, v, id);
        }
    }

    /// Wakes task `id`: a waiting task goes to the back of the queue. Waking a
    /// task that is not waiting does nothing, so extra wakes are harmless.
    pub fn wake(&mut self, id: TaskId) -> (r: bool)
        requires
            old(self).wf(),
        ensures
            final(self).wf(),
            final(self).spec_capacity() == old(self).spec_capacity(),
            r == (id < old(self)@.status.len() && old(self)@.status[id as int] == TaskStatus::Waiting),
            final(self)@ == wake_spec(old(self)@, id),
    {
        if id < self.status.len() && self.status[id] == TaskStatus::Waiting {
            self.status.set(id, TaskStatus::Queued);
            self.ready.push_unbounded(id);
            proof {
                let v = self@;
                let o = old(self)@;
                assert forall|i: int| 0 <= i < o.ready.len() implies o.ready[i] != id by {
                    assert(o.status[o.ready[i] as int] == TaskStatus::Queued);
                }
                lemma_requeue_wf(o, v, id);
            }
            true
        } else {
            false
        }
    }
}

/// No task is ever lost: every spawn, dequeue, completion and wake keeps the
/// executor's invariant, and under that invariant each task is finished,
/// being resumed, held by a wake source, or in the ready queue.
pub proof fn lemma_no_lost_wakeup(v: ExecutorView, id: TaskId, step: Step)
    requires
        view_wf(v),
    ensures
        forall|t: TaskId| #![auto] t < v.status.len() ==> v.status[t as int] == TaskStatus::Terminal
            || v.status[t as int] == TaskStatus::Running || v.status[t as int] == TaskStatus::Waiting
            || v.ready.contains(t),
        v.status.len() < usize::MAX ==> view_wf(spawn_spec(v)),
        view_wf(next_spec(v)),
        id < v.status.len() && v.status[id as int] == TaskStatus::Running ==> view_wf(
            complete_spec(v, id, step),
        ),
        view_wf(wake_spec(v, id)),
{
    if v.status.len() < usize::MAX {
        lemma_spawn_wf(v);
    }
    if v.ready.len() > 0 {
        lemma_next_wf(v);
    }
    if id < v.status.len() && v.status[id as int] != TaskStatus::Queued {
        assert forall|i: int| 0 <= i < v.ready.len() implies v.ready[i] != id by {
            assert(v.status[v.ready[i] as int] == TaskStatus::Queued);
        }
        if v.status[id as int] == TaskStatus::Running {
            lemma_requeue_wf(v, complete_spec(v, id, step), id);
        }
        if v.status[id as int] == TaskStatus::Waiting {
            lemma_requeue_wf(v, wake_spec(v, id), id);
        }
    }
}

/// Tasks spawned one after the other, with no wake in between, are resumed
/// in that order: the first one strictly before the second.
pub proof fn lemma_spawn_order(v: ExecutorView)
    requires
        v.status.len() + 1 < usize::MAX,
    ensures
        spawn_spec(spawn_spec(v)).ready.skip(v.ready.len() as int) == seq![
            v.status.len() as TaskId,
            (v.status.len() + 1) as TaskId,
        ],
        v.ready.len() == 0 ==> next_task(spawn_spec(spawn_spec(v))) == Some(v.status.len() as TaskId)
            && next_task(next_spec(spawn_spec(spawn_spec(v)))) == Some((v.status.len() + 1) as TaskId),
{
    let w = spawn_spec(spawn_spec(v));
    assert(w.ready.skip(v.ready.len() as int) =~= seq![
        v.status.len() as TaskId,
        (v.status.len() + 1) as TaskId,
    ]);
}

/// Spawning keeps the invariant.
proof fn lemma_spawn_wf(o: ExecutorView)
    requires
        view_wf(o),
        o.status.len() < usize::MAX,
    ensures
        view_wf(spawn_spec(o)),
{
    let v = spawn_spec(o);
    let id = o.status.len() as TaskId;
    assert(v.ready == o.ready.push(id));
    assert forall|i: int| 0 <= i < v.ready.len() implies v.status[#[trigger] v.ready[i] as int]
        == TaskStatus::Queued by {
        if i < o.ready.len() {
            assert(o.ready[i] == v.ready[i]);
        }
    }
    assert forall|j: TaskId| j < v.status.len() && v.status[j as int] == TaskStatus::Queued
        implies v.ready.contains(j) by {
        if (j as int) < o.status.len() {
            let k = choose|k: int| 0 <= k < o.ready.len() && o.ready[k] == j;
            assert(v.ready[k] == j);
        } else {
            assert(v.ready[o.ready.len() as int] == j);
        }
    }
    assert forall|i: int| 0 <= i < v.ready.len() implies #[trigger] v.ready[i] < v.status.len() by {
        if i < o.ready.len() {
            assert(o.ready[i] == v.ready[i]);
        }
    }
    assert(v.ready.no_duplicates()) by {
        assert forall|a: int, b: int| 0 <= a < v.ready.len() && 0 <= b < v.ready.len() && a != b
            implies v.ready[a] != v.ready[b] by {
            if a < o.ready.len() && b < o.ready.len() {
            } else if a < o.ready.len() {
                assert(o.ready[a] < o.status.len());
            } else if b < o.ready.len() {
                assert(o.ready[b] < o.status.len());
            }
        }
    }
}

/// Taking the front of a non-empty queue keeps the invariant.
proof fn lemma_next_wf(o: ExecutorView)
    requires
        view_wf(o),
        o.ready.len() > 0,
    ensures
        view_wf(next_spec(o)),
{
    let v = next_spec(o);
    let id = o.ready[0];
    assert forall|i: int| 0 <= i < v.ready.len() implies v.status[#[trigger] v.ready[i] as int]
        == TaskStatus::Queued by {
        assert(v.ready[i] == o.ready[i + 1]);
        assert(o.ready[i + 1] != o.ready[0]);
    }
    assert forall|j: TaskId| j < v.status.len() && v.status[j as int] == TaskStatus::Queued
        implies v.ready.contains(j) by {
        assert(o.ready[0] < o.status.len());
        assert(v.status[id as int] == TaskStatus::Running);
        assert(o.ready[0] == id);
        let k = choose|k: int| 0 <= k < o.ready.len() && o.ready[k] == j;
        assert(k != 0);
        assert(v.ready[k - 1] == j);
    }
    assert forall|i: int| 0 <= i < v.ready.len() implies #[trigger] v.ready[i] < v.status.len() by {
        assert(v.ready[i] == o.ready[i + 1]);
    }
    assert(v.ready.no_duplicates()) by {
        assert forall|a: int, b: int| 0 <= a < v.ready.len() && 0 <= b < v.ready.len() && a != b
            implies v.ready[a] != v.ready[b] by {
            assert(v.ready[a] == o.ready[a + 1]);
            assert(v.ready[b] == o.ready[b + 1]);
        }
    }
}

/// Changing the status of a task that is not in the queue keeps the invariant,
/// and so does queueing it at the back while marking it queued.
proof fn lemma_requeue_wf(o: ExecutorView, v: ExecutorView, id: TaskId)
    requires
        view_wf(o),
        id < o.status.len(),
        o.status[id as int] != TaskStatus::Queued,
        forall|i: int| 0 <= i < o.ready.len() ==> o.ready[i] != id,
        v.status.len() == o.status.len(),
        forall|j: int| 0 <= j < o.status.len() && j != id ==> v.status[j] == o.status[j],
        v.status[id as int] == TaskStatus::Queued ==> v.ready == o.ready.push(id),
        v.status[id as int] != TaskStatus::Queued ==> v.ready == o.ready,
    ensures
        view_wf(v),
{
    assert forall|i: int| 0 <= i < v.ready.len() implies v.status[#[trigger] v.ready[i] as int]
        == TaskStatus::Queued by {
        if i < o.ready.len() {
            assert(v.ready[i] == o.ready[i]);
            assert(o.ready[i] != id);
        }
    }
    assert forall|j: TaskId| j < v.status.len() && v.status[j as int] == TaskStatus::Queued
        implies v.ready.contains(j) by {
        if j == id {
            assert(v.ready[o.ready.len() as int] == id);
        } else {
            let k = choose|k: int| 0 <= k < o.ready.len() && o.ready[k] == j;
            assert(v.ready[k] == j);
        }
    }
    assert forall|i: int| 0 <= i < v.ready.len() implies #[trigger] v.ready[i] < v.status.len() by {
        if i < o.ready.len() {
            assert(v.ready[i] == o.ready[i]);
        }
    }
    assert(v.ready.no_duplicates()) by {
        assert forall|a: int, b: int| 0 <= a < v.ready.len() && 0 <= b < v.ready.len() && a != b
            implies v.ready[a] != v.ready[b] by {
            if a < o.ready.len() {
                assert(v.ready[a] == o.ready[a]);
            }
            if b < o.ready.len() {
                assert(v.ready[b] == o.ready[b]);
            }
        }
    }
}

} // verus!
