//! The async task registry.
//!
//! A background task runs on a dedicated thread and pushes events to the
//! host over its own task-scoped channel — a link entirely separate from
//! the main callback channel, never sharing its guard.  This module keeps
//! the verified bookkeeping: which tasks exist, where each stands in its
//! lifecycle (registered, running, stopped, or finished), and the ordered
//! transcript of events each task has pushed.
//!
//! Each task has a single writer, so its events arrive in push order: the
//! transcript is append-only.  Stopping is cooperative — a stopped task
//! can push nothing more, so no event arrives after a stop completes.  A
//! failure inside a task is caught at the task boundary and reported as a
//! terminal event on the task's own channel, never propagated to the
//! registry's caller.  The threads themselves, and the host-facing link
//! each task pushes through, live with the host-facing shims.

use vstd::prelude::*;

use crate::codec::{RecordValue, StructuredRecord};

verus! {

broadcast use vstd::std_specs::vec::group_vec_axioms;

/// Where a task stands in its lifecycle.
#[derive(Clone, Copy, PartialEq, Eq, Structural, Debug)]
pub enum TaskState {
    /// Registered, its thread not yet started.
    Registered,
    /// Its thread is running; it may push events.
    Running,
    /// Cooperative termination was requested and completed.
    Stopped,
    /// Its thread ended, normally or by a reported failure.
    Finished,
}

/// The identifier of a registered task.
#[derive(Clone, Copy, PartialEq, Eq, Structural, Debug)]
pub struct AsyncTaskHandle {
    /// The task's identifier, unique within the registry.
    pub id: u64,
}

/// One registered task: its identifier, its lifecycle state, and the
/// ordered transcript of events it has pushed to the host.
#[derive(PartialEq, Debug)]
pub struct AsyncTask {
    /// The task's identifier.
    pub id: u64,
    /// Where the task stands in its lifecycle.
    pub state: TaskState,
    /// The events pushed so far, in push order.
    pub events: Vec<StructuredRecord>,
}

/// The registry of background tasks.
#[derive(PartialEq, Debug)]
pub struct TaskRegistry {
    tasks: Vec<AsyncTask>,
    next_id: u64,
}

impl TaskRegistry {
    /// The registered tasks, in registration order.
    pub closed spec fn tasks_spec(self) -> Seq<AsyncTask> {
        self.tasks@
    }

    /// The identifier the next registration will get.
    pub closed spec fn next_id_spec(self) -> u64 {
        self.next_id
    }

    /// Whether a task with this identifier is registered.
    pub open spec fn has_task(self, id: u64) -> bool {
        exists|i: int| 0 <= i < self.tasks_spec().len() && (#[trigger] self.tasks_spec()[i]).id == id
    }

    /// The index of the task with this identifier.
    pub open spec fn idx_of(self, id: u64) -> int {
        choose|i: int| 0 <= i < self.tasks_spec().len() && (#[trigger] self.tasks_spec()[i]).id == id
    }

    /// The task with this identifier.
    pub open spec fn task_of(self, id: u64) -> AsyncTask {
        self.tasks_spec()[self.idx_of(id)]
    }

    /// Well-formedness: identifiers are unique and below the next one.
    pub open spec fn wf(self) -> bool {
        &&& forall|i: int, j: int|
            0 <= i < j < self.tasks_spec().len() ==> (#[trigger] self.tasks_spec()[i]).id != (
            #[trigger] self.tasks_spec()[j]).id
        &&& forall|i: int|
            0 <= i < self.tasks_spec().len() ==> (#[trigger] self.tasks_spec()[i]).id
                < self.next_id_spec()
    }
}

/// A well-formed registry holds at most one task per identifier, so the
/// chosen index is the index of any matching task.
proof fn lemma_index_unique(reg: TaskRegistry, i: int, id: u64)
    requires
        reg.wf(),
        0 <= i < reg.tasks_spec().len(),
        reg.tasks_spec()[i].id == id,
    ensures
        reg.idx_of(id) == i,
        reg.has_task(id),
        reg.task_of(id) == reg.tasks_spec()[i],
{
    assert(reg.has_task(id));
    let k = reg.idx_of(id);
    if k < i {
        assert(reg.tasks_spec()[k].id != reg.tasks_spec()[i].id);
    } else if k > i {
        assert(reg.tasks_spec()[i].id != reg.tasks_spec()[k].id);
    }
}

/// Well-formedness rests on the identifiers alone, so any change that
/// keeps every task's identifier in place — a state transition, an event
/// push — preserves it.
proof fn lemma_wf_preserved_by_same_ids(pre: TaskRegistry, post: TaskRegistry)
    requires
        pre.wf(),
        post.tasks_spec().len() == pre.tasks_spec().len(),
        post.next_id_spec() == pre.next_id_spec(),
        forall|i: int|
            0 <= i < pre.tasks_spec().len() ==> (#[trigger] post.tasks_spec()[i]).id
                == pre.tasks_spec()[i].id,
    ensures
        post.wf(),
{
    assert forall|i: int, j: int|
        0 <= i < j < post.tasks_spec().len() implies (#[trigger] post.tasks_spec()[i]).id != (
    #[trigger] post.tasks_spec()[j]).id by {
        assert(post.tasks_spec()[i].id == pre.tasks_spec()[i].id);
        assert(post.tasks_spec()[j].id == pre.tasks_spec()[j].id);
    }
    assert forall|i: int|
        0 <= i < post.tasks_spec().len() implies (#[trigger] post.tasks_spec()[i]).id
        < post.next_id_spec() by {
        assert(post.tasks_spec()[i].id == pre.tasks_spec()[i].id);
    }
}

/// `post` is `pre` with the state of task `id` set to `state` and nothing
/// else changed; the task's event transcript is untouched.
pub open spec fn state_set(pre: TaskRegistry, post: TaskRegistry, id: u64, state: TaskState) -> bool {
    let k = pre.idx_of(id);
    &&& post.tasks_spec().len() == pre.tasks_spec().len()
    &&& post.next_id_spec() == pre.next_id_spec()
    &&& forall|j: int|
        0 <= j < pre.tasks_spec().len() && j != k ==> #[trigger] post.tasks_spec()[j]
            == pre.tasks_spec()[j]
    &&& post.tasks_spec()[k].id == pre.tasks_spec()[k].id
    &&& post.tasks_spec()[k].state == state
    &&& post.tasks_spec()[k].events@ == pre.tasks_spec()[k].events@
}

/// `post` is `pre` with `event` appended to the transcript of task `id`
/// and nothing else changed.
pub open spec fn event_pushed(
    pre: TaskRegistry,
    post: TaskRegistry,
    id: u64,
    event: StructuredRecord,
) -> bool {
    let k = pre.idx_of(id);
    &&& post.tasks_spec().len() == pre.tasks_spec().len()
    &&& post.next_id_spec() == pre.next_id_spec()
    &&& forall|j: int|
        0 <= j < pre.tasks_spec().len() && j != k ==> #[trigger] post.tasks_spec()[j]
            == pre.tasks_spec()[j]
    &&& post.tasks_spec()[k].id == pre.tasks_spec()[k].id
    &&& post.tasks_spec()[k].state == pre.tasks_spec()[k].state
    &&& post.tasks_spec()[k].events@ == pre.tasks_spec()[k].events@.push(event)
}

/// Whether task `id` may push an event: it exists and is running.
pub open spec fn push_enabled(reg: TaskRegistry, id: u64) -> bool {
    reg.has_task(id) && reg.task_of(id).state == TaskState::Running
}

impl TaskRegistry {
    /// A new, empty registry.
    pub fn new() -> (r: TaskRegistry)
        ensures
            r.wf(),
            r.tasks_spec() == Seq::<AsyncTask>::empty(),
            r.next_id_spec() == 0,
    {
        TaskRegistry { tasks: Vec::new(), next_id: 0 }
    }

    /// Finds the index of the task with this identifier.
    #[verifier::loop_isolation(false)]
    fn find_index(&self, id: u64) -> (r: Option<usize>)
        requires
            self.wf(),
        ensures
            match r {
                Option::Some(i) => self.has_task(id) && self.idx_of(id) == i as int && i
                    < self.tasks_spec().len(),
                Option::None => !self.has_task(id),
            },
    {
        let mut i: usize = 0;
        while i < self.tasks.len()
            invariant
                i <= self.tasks_spec().len(),
                forall|j: int| 0 <= j < i ==> (#[trigger] self.tasks_spec()[j]).id != id,
            decreases self.tasks_spec().len() - i,
        {
            if self.tasks[i].id == id {
                proof {
                    lemma_index_unique(*self, i as int, id);
                }
                return Option::Some(i);
            }
            i += 1;
        }
        Option::None
    }

    /// Registers a new task and hands out its identifier.
    ///
    /// The task starts in the `Registered` state; the controller moves it
    /// to `Running` when its dedicated thread starts.
    pub fn register_task(&mut self) -> (h: AsyncTaskHandle)
        requires
            old(self).wf(),
            old(self).next_id_spec() < u64::MAX,
        ensures
            final(self).wf(),
            h.id == old(self).next_id_spec(),
            !old(self).has_task(h.id),
            final(self).has_task(h.id),
            final(self).next_id_spec() == old(self).next_id_spec() + 1,
            final(self).tasks_spec().len() == old(self).tasks_spec().len() + 1,
            final(self).tasks_spec().subrange(0, old(self).tasks_spec().len() as int) == old(
                self,
            ).tasks_spec(),
            final(self).task_of(h.id).id == h.id,
            final(self).task_of(h.id).state == TaskState::Registered,
            final(self).task_of(h.id).events@ == Seq::<StructuredRecord>::empty(),
    {
        let id = self.next_id;
        let task = AsyncTask { id, state: TaskState::Registered, events: Vec::new() };
        let ghost pre = *self;
        self.tasks.push(task);
        self.next_id = self.next_id + 1;
        proof {
            let n = pre.tasks_spec().len() as int;
            assert forall|i: int| 0 <= i < n implies (#[trigger] self.tasks_spec()[i]).id != id by {
                assert(pre.tasks_spec()[i].id < pre.next_id_spec());
            }
            lemma_index_unique(*self, n, id);
            assert(self.tasks_spec().subrange(0, n) =~= pre.tasks_spec());
            if pre.has_task(id) {
                let w = pre.idx_of(id);
                assert(pre.tasks_spec()[w].id < pre.next_id_spec());
            }
        }
        AsyncTaskHandle { id }
    }

    /// Sets the state of the task at a known index, leaving its identifier
    /// and transcript unchanged.
    fn set_state_at(&mut self, index: usize, state: TaskState)
        requires
            index < old(self).tasks_spec().len(),
        ensures
            final(self).tasks_spec().len() == old(self).tasks_spec().len(),
            final(self).next_id_spec() == old(self).next_id_spec(),
            forall|j: int|
                0 <= j < old(self).tasks_spec().len() && j != index
                    ==> #[trigger] final(self).tasks_spec()[j] == old(self).tasks_spec()[j],
            final(self).tasks_spec()[index as int].id == old(self).tasks_spec()[index as int].id,
            final(self).tasks_spec()[index as int].state == state,
            final(self).tasks_spec()[index as int].events@ == old(self).tasks_spec()[index as int].events@,
    {
        let mut task = self.tasks.remove(index);
        task.state = state;
        self.tasks.insert(index, task);
        proof {
            assert forall|j: int|
                0 <= j < old(self).tasks_spec().len() && j != index implies #[trigger] self.tasks_spec()[j]
                == old(self).tasks_spec()[j] by {
                if j < index {
                } else {
                    assert(self.tasks_spec()[j] == old(self).tasks_spec()[j]);
                }
            }
        }
    }

    /// Moves a registered task to `Running` once its thread has started.
    ///
    /// Returns whether the transition happened: only a task in the
    /// `Registered` state can start.
    pub fn start_task(&mut self, handle: AsyncTaskHandle) -> (r: bool)
        requires
            old(self).wf(),
        ensures
            final(self).wf(),
            r == (old(self).has_task(handle.id) && old(self).task_of(handle.id).state
                == TaskState::Registered),
            r ==> state_set(*old(self), *final(self), handle.id, TaskState::Running),
            !r ==> *final(self) == *old(self),
    {
        self.transition(handle, TaskState::Registered, TaskState::Running)
    }

    /// Requests cooperative termination of a running task: its thread is
    /// signalled and joined by the controller, and nothing arrives on its
    /// event channel afterwards.
    ///
    /// Returns whether the transition happened: only a running task can
    /// be stopped.
    pub fn stop_task(&mut self, handle: AsyncTaskHandle) -> (r: bool)
        requires
            old(self).wf(),
        ensures
            final(self).wf(),
            r == (old(self).has_task(handle.id) && old(self).task_of(handle.id).state
                == TaskState::Running),
            r ==> state_set(*old(self), *final(self), handle.id, TaskState::Stopped),
            !r ==> *final(self) == *old(self),
    {
        self.transition(handle, TaskState::Running, TaskState::Stopped)
    }

    /// Records that a running task's thread ended normally.
    ///
    /// Returns whether the transition happened: only a running task can
    /// finish.
    pub fn mark_finished(&mut self, handle: AsyncTaskHandle) -> (r: bool)
        requires
            old(self).wf(),
        ensures
            final(self).wf(),
            r == (old(self).has_task(handle.id) && old(self).task_of(handle.id).state
                == TaskState::Running),
            r ==> state_set(*old(self), *final(self), handle.id, TaskState::Finished),
            !r ==> *final(self) == *old(self),
    {
        self.transition(handle, TaskState::Running, TaskState::Finished)
    }

    /// Moves the task from `from` to `to` if it is registered and in
    /// `from`; reports whether it did.
    fn transition(&mut self, handle: AsyncTaskHandle, from: TaskState, to: TaskState) -> (r: bool)
        requires
            old(self).wf(),
        ensures
            final(self).wf(),
            r == (old(self).has_task(handle.id) && old(self).task_of(handle.id).state == from),
            r ==> state_set(*old(self), *final(self), handle.id, to),
            !r ==> *final(self) == *old(self),
    {
        match self.find_index(handle.id) {
            Option::Some(i) => {
                let matches_from = match (self.tasks[i].state, from) {
                    (TaskState::Registered, TaskState::Registered) => true,
                    (TaskState::Running, TaskState::Running) => true,
                    (TaskState::Stopped, TaskState::Stopped) => true,
                    (TaskState::Finished, TaskState::Finished) => true,
                    _ => false,
                };
                if matches_from {
                    let ghost pre = *self;
                    self.set_state_at(i, to);
                    proof {
                        lemma_wf_preserved_by_same_ids(pre, *self);
                    }
                    true
                } else {
                    false
                }
            },
            Option::None => false,
        }
    }

    /// Appends an event to a running task's transcript: the task-scoped
    /// channel carries it to the host in push order.
    ///
    /// Returns whether the event was accepted: only a running task can
    /// push, so nothing arrives on a task's channel after it is stopped.
    pub fn push_event(&mut self, handle: AsyncTaskHandle, event: StructuredRecord) -> (r: bool)
        requires
            old(self).wf(),
        ensures
            final(self).wf(),
            r == push_enabled(*old(self), handle.id),
            r ==> event_pushed(*old(self), *final(self), handle.id, event),
            !r ==> *final(self) == *old(self),
    {
        match self.find_index(handle.id) {
            Option::Some(i) => {
                let running = match self.tasks[i].state {
                    TaskState::Running => true,
                    _ => false,
                };
                if running {
                    let ghost pre = *self;
                    let mut task = self.tasks.remove(i);
                    task.events.push(event);
                    self.tasks.insert(i, task);
                    proof {
                        assert forall|j: int|
                            0 <= j < pre.tasks_spec().len() && j != i implies #[trigger] self.tasks_spec()[j]
                            == pre.tasks_spec()[j] by {}
                        lemma_wf_preserved_by_same_ids(pre, *self);
                    }
                    true
                } else {
                    false
                }
            },
            Option::None => false,
        }
    }

    /// Catches a failure at the task boundary: the failure is reported as
    /// a terminal event on the task's own channel — a one-node record
    /// carrying the message — and the task is finished.  The failure is
    /// never propagated to the registry's caller.
    ///
    /// Returns whether the report happened: only a running task can fail.
    pub fn report_task_failure(&mut self, handle: AsyncTaskHandle, message: String) -> (r: bool)
        requires
            old(self).wf(),
        ensures
            final(self).wf(),
            r == push_enabled(*old(self), handle.id),
            r ==> final(self).tasks_spec().len() == old(self).tasks_spec().len(),
            r ==> final(self).next_id_spec() == old(self).next_id_spec(),
            r ==> forall|j: int|
                0 <= j < old(self).tasks_spec().len() && j != old(self).idx_of(handle.id)
                    ==> #[trigger] final(self).tasks_spec()[j] == old(self).tasks_spec()[j],
            r ==> final(self).task_of(handle.id).id == handle.id,
            r ==> final(self).task_of(handle.id).state == TaskState::Finished,
            r ==> final(self).task_of(handle.id).events@.len() == old(self).task_of(
                handle.id,
            ).events@.len() + 1,
            r ==> final(self).task_of(handle.id).events@.subrange(
                0,
                old(self).task_of(handle.id).events@.len() as int,
            ) == old(self).task_of(handle.id).events@,
            r ==> final(self).task_of(handle.id).events@.last().nodes_spec().len() == 1,
            r ==> final(self).task_of(handle.id).events@.last().nodes_spec()[0].name@
                == "Message"@,
            r ==> (final(self).task_of(handle.id).events@.last().nodes_spec()[0].value matches
                RecordValue::Text(m) && m@ == message@),
            !r ==> *final(self) == *old(self),
    {
        match self.find_index(handle.id) {
            Option::Some(i) => {
                let running = match self.tasks[i].state {
                    TaskState::Running => true,
                    _ => false,
                };
                if running {
                    let ghost pre = *self;
                    let mut terminal = StructuredRecord::new();
                    terminal.add("Message".to_owned(), RecordValue::Text(message));
                    let mut task = self.tasks.remove(i);
                    task.events.push(terminal);
                    task.state = TaskState::Finished;
                    self.tasks.insert(i, task);
                    proof {
                        assert forall|j: int|
                            0 <= j < pre.tasks_spec().len() && j != i implies #[trigger] self.tasks_spec()[j]
                            == pre.tasks_spec()[j] by {}
                        lemma_wf_preserved_by_same_ids(pre, *self);
                        lemma_index_unique(*self, i as int, handle.id);
                        assert(self.task_of(handle.id).events@.subrange(
                            0,
                            pre.task_of(handle.id).events@.len() as int,
                        ) =~= pre.task_of(handle.id).events@);
                    }
                    true
                } else {
                    false
                }
            },
            Option::None => false,
        }
    }

    /// Removes the bookkeeping of a task whose thread is no longer
    /// running.
    ///
    /// Returns whether the task was released: a running task must be
    /// stopped or finished first.
    pub fn release_task(&mut self, handle: AsyncTaskHandle) -> (r: bool)
        requires
            old(self).wf(),
        ensures
            final(self).wf(),
            r == (old(self).has_task(handle.id) && old(self).task_of(handle.id).state
                != TaskState::Running),
            r ==> final(self).tasks_spec() == old(self).tasks_spec().remove(
                old(self).idx_of(handle.id),
            ),
            r ==> final(self).next_id_spec() == old(self).next_id_spec(),
            !r ==> *final(self) == *old(self),
    {
        match self.find_index(handle.id) {
            Option::Some(i) => {
                let running = match self.tasks[i].state {
                    TaskState::Running => true,
                    _ => false,
                };
                if running {
                    false
                } else {
                    let ghost pre = *self;
                    let _ = self.tasks.remove(i);
                    proof {
                        assert forall|a: int, b: int|
                            0 <= a < b < self.tasks_spec().len() implies (
                        #[trigger] self.tasks_spec()[a]).id != (#[trigger] self.tasks_spec()[b]).id by {
                            if b < i {
                            } else if a < i {
                                assert(self.tasks_spec()[b] == pre.tasks_spec()[b + 1]);
                            } else {
                                assert(self.tasks_spec()[a] == pre.tasks_spec()[a + 1]);
                                assert(self.tasks_spec()[b] == pre.tasks_spec()[b + 1]);
                            }
                        }
                        assert forall|a: int|
                            0 <= a < self.tasks_spec().len() implies (
                        #[trigger] self.tasks_spec()[a]).id < self.next_id_spec() by {
                            if a >= i {
                                assert(self.tasks_spec()[a] == pre.tasks_spec()[a + 1]);
                            }
                        }
                    }
                    true
                }
            },
            Option::None => false,
        }
    }

    /// The number of registered tasks.
    pub fn task_count(&self) -> (r: usize)
        ensures
            r == self.tasks_spec().len(),
    {
        self.tasks.len()
    }

    /// The identifier the next registration will get; lets an unverified
    /// caller test `register_task`'s machine-limit precondition.
    pub fn next_task_id(&self) -> (r: u64)
        ensures
            r == self.next_id_spec(),
    {
        self.next_id
    }

    /// The lifecycle state of a task, if it is registered.
    pub fn task_state(&self, handle: AsyncTaskHandle) -> (r: Option<TaskState>)
        requires
            self.wf(),
        ensures
            self.has_task(handle.id) ==> r == Option::Some(self.task_of(handle.id).state),
            !self.has_task(handle.id) ==> r is None,
    {
        match self.find_index(handle.id) {
            Option::Some(i) => Option::Some(self.tasks[i].state),
            Option::None => Option::None,
        }
    }

    /// The events a task has pushed so far, in push order, if it is
    /// registered.
    pub fn task_events(&self, handle: AsyncTaskHandle) -> (r: Option<&Vec<StructuredRecord>>)
        requires
            self.wf(),
        ensures
            self.has_task(handle.id) ==> (r matches Option::Some(v) && v@ == self.task_of(
                handle.id,
            ).events@),
            !self.has_task(handle.id) ==> r is None,
    {
        match self.find_index(handle.id) {
            Option::Some(i) => Option::Some(&self.tasks[i].events),
            Option::None => Option::None,
        }
    }
}

/// Nothing arrives on a task's event channel after it leaves the running
/// state: a push is enabled only while the task runs, so a completed stop
/// forecloses every later event.
pub proof fn lemma_no_events_after_stop(reg: TaskRegistry, id: u64)
    requires
        reg.wf(),
        reg.has_task(id),
        reg.task_of(id).state != TaskState::Running,
    ensures
        !push_enabled(reg, id),
{
}

} // verus!
