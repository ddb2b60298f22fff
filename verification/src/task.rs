//! The tasks of the Rust side.
//!
//! Each spawned future becomes a task, named towards the external side by a
//! handle (its internal task). The external side polls a task by its handle
//! until the task reports that it is no longer pending, and then drops it.
//! A pending task is woken through the user data of the external task that
//! it was created for.

use std::collections::HashMap;
use vstd::prelude::*;

verus! {

broadcast use vstd::std_specs::hash::group_hash_axioms;

/// User data of the external side: the address of an object that it owns,
/// `0` standing for the null pointer. Handles of tasks are user data too.
pub type RawUserData = usize;

/// What one poll of a future gave.
pub enum PollState {
    /// The future has completed.
    Ready,
    /// The future is waiting and must be polled again once woken.
    Pending,
}

/// Where a task stands.
pub enum TaskState<F> {
    /// Waiting to be polled; the task holds its future.
    Idle(F),
    /// The future is being polled: it was handed out and not yet given back.
    Polling,
    /// The future has completed and was dropped.
    Complete,
}

/// Why a task could not be polled.
pub enum PollError {
    /// No task has this handle.
    UnknownTask,
    /// The task's future is already being polled.
    Busy,
    /// The task's future has already completed.
    Completed,
}

/// A spawned future together with the user data of its external task.
pub struct Task<F> {
    pub data: RawUserData,
    pub state: TaskState<F>,
}

/// The state that a task of state `state` is in after it was asked for its
/// future.
pub open spec fn locked<F>(state: TaskState<F>) -> TaskState<F> {
    match state {
        TaskState::Idle(_) => TaskState::Polling,
        _ => state,
    }
}

/// What asking the task `task` for its future gives: the future, with the
/// user data that the waker of this poll wakes.
pub open spec fn lock_result<F>(task: Task<F>) -> Result<(F, RawUserData), PollError> {
    match task.state {
        TaskState::Idle(f) => Ok((f, task.data)),
        TaskState::Polling => Err(PollError::Busy),
        TaskState::Complete => Err(PollError::Completed),
    }
}

/// The state of a task whose future `future` gave `outcome` when polled.
pub open spec fn polled<F>(future: F, outcome: PollState) -> TaskState<F> {
    match outcome {
        PollState::Pending => TaskState::Idle(future),
        PollState::Ready => TaskState::Complete,
    }
}

impl PollState {
    /// Whether the poll found the future pending.
    pub fn is_pending(&self) -> (res: bool)
        ensures
            res == (self is Pending),
    {
        match self {
            PollState::Pending => true,
            PollState::Ready => false,
        }
    }
}

impl<F> Task<F> {
    /// Whether the future of the task is being polled.
    pub fn is_polling(&self) -> (res: bool)
        ensures
            res == (self.state is Polling),
    {
        match self.state {
            TaskState::Polling => true,
            _ => false,
        }
    }

    /// Creates an idle task for `future`, to be woken through `data`.
    pub fn new(future: F, data: RawUserData) -> (task: Self)
        ensures
            task == (Task { data, state: TaskState::Idle(future) }),
    {
        Task { data, state: TaskState::Idle(future) }
    }

    /// Reads the address that wakes of the task go to.
    pub fn data(&self) -> (data: RawUserData)
        ensures
            data == self.data,
    {
        self.data
    }

    /// Takes the future out to poll it, together with the user data that
    /// the waker of this poll wakes: every wake of that waker, during the
    /// poll or at any later time, goes to this user data. Only an idle task
    /// gives its future; it is then being polled until `poll` gives the
    /// future back.
    pub fn lock(&mut self) -> (res: Result<(F, RawUserData), PollError>)
        ensures
            res == lock_result(*old(self)),
            final(self).data == old(self).data,
            final(self).state == locked(old(self).state),
    {
        let mut state = TaskState::Polling;
        std::mem::swap(&mut state, &mut self.state);
        match state {
            TaskState::Idle(f) => Ok((f, self.data)),
            TaskState::Polling => Err(PollError::Busy),
            TaskState::Complete => {
                self.state = TaskState::Complete;
                Err(PollError::Completed)
            },
        }
    }

    /// Records what polling the future gave and gives the future back.
    /// Returns `true` while the task is still pending: it then keeps its
    /// future; a completed future is dropped.
    pub fn poll(&mut self, future: F, outcome: PollState) -> (pending: bool)
        requires
            old(self).state is Polling,
        ensures
            pending == (outcome is Pending),
            final(self).data == old(self).data,
            final(self).state == polled(future, outcome),
    {
        match outcome {
            PollState::Pending => {
                self.state = TaskState::Idle(future);
                true
            },
            PollState::Ready => {
                self.state = TaskState::Complete;
                false
            },
        }
    }
}

/// The tasks `tasks` with the idle task of `future`, woken through `data`,
/// added as `handle`.
pub open spec fn spawned<F>(
    tasks: Map<RawUserData, Task<F>>,
    handle: RawUserData,
    future: F,
    data: RawUserData,
) -> Map<RawUserData, Task<F>> {
    tasks.insert(handle, Task { data, state: TaskState::Idle(future) })
}

/// What asking for the future of the task `handle` gives.
pub open spec fn poll_begin_result<F>(tasks: Map<RawUserData, Task<F>>, handle: RawUserData) -> Result<
    (F, RawUserData),
    PollError,
> {
    if tasks.contains_key(handle) {
        lock_result(tasks[handle])
    } else {
        Err(PollError::UnknownTask)
    }
}

/// The tasks after the future of the task `handle` was asked for.
pub open spec fn poll_begun<F>(tasks: Map<RawUserData, Task<F>>, handle: RawUserData) -> Map<
    RawUserData,
    Task<F>,
> {
    if tasks.contains_key(handle) {
        tasks.insert(handle, Task { data: tasks[handle].data, state: locked(tasks[handle].state) })
    } else {
        tasks
    }
}

/// The tasks after the future `future` of the task `handle` gave `outcome`:
/// a task being polled takes the outcome; the tasks stay as they are when
/// `handle` is not being polled (it was dropped meanwhile).
pub open spec fn poll_ended<F>(
    tasks: Map<RawUserData, Task<F>>,
    handle: RawUserData,
    future: F,
    outcome: PollState,
) -> Map<RawUserData, Task<F>> {
    if tasks.contains_key(handle) && tasks[handle].state is Polling {
        tasks.insert(handle, Task { data: tasks[handle].data, state: polled(future, outcome) })
    } else {
        tasks
    }
}

/// The tasks after the task `handle` was polled once for each outcome of
/// `outcomes`, in order, its future being given back as the matching
/// element of `futures`.
pub open spec fn polls<F>(
    tasks: Map<RawUserData, Task<F>>,
    handle: RawUserData,
    futures: Seq<F>,
    outcomes: Seq<PollState>,
) -> Map<RawUserData, Task<F>>
    decreases outcomes.len(),
{
    if outcomes.len() == 0 {
        tasks
    } else {
        poll_ended(
            poll_begun(polls(tasks, handle, futures.drop_last(), outcomes.drop_last()), handle),
            handle,
            futures[outcomes.len() - 1],
            outcomes.last(),
        )
    }
}

/// The tasks of the Rust side, by handle.
pub struct TaskTable<F> {
    tasks: HashMap<usize, Task<F>>,
    next: usize,
}

impl<F> TaskTable<F> {
    /// The live tasks, by handle.
    pub closed spec fn tasks(&self) -> Map<RawUserData, Task<F>> {
        self.tasks@
    }

    /// The handle that the next spawned task gets.
    pub closed spec fn next_handle(&self) -> RawUserData {
        self.next
    }

    /// Every live handle is non-null and below the next handle.
    pub closed spec fn wf(&self) -> bool {
        &&& 1 <= self.next
        &&& forall|h: usize| #[trigger] self.tasks@.contains_key(h) ==> 1 <= h < self.next
    }

    /// An empty table.
    pub fn new() -> (table: Self)
        ensures
            table.wf(),
            table.tasks() == Map::<RawUserData, Task<F>>::empty(),
            table.next_handle() == 1,
    {
        TaskTable { tasks: HashMap::new(), next: 1 }
    }

    /// Whether one more task can get a handle.
    pub fn can_spawn(&self) -> (res: bool)
        ensures
            res == (self.next_handle() < usize::MAX),
    {
        self.next < usize::MAX
    }

    /// Whether `handle` names a live task.
    pub fn contains(&self, handle: RawUserData) -> (res: bool)
        ensures
            res == self.tasks().contains_key(handle),
    {
        self.tasks.contains_key(&handle)
    }

    /// Hands out the future of the task `handle` to be polled, together with
    /// the user data that the waker of this poll wakes, during the poll or
    /// later, also once the task was dropped. The task is then being polled
    /// until `poll_end` gives the future back.
    pub fn poll_begin(&mut self, handle: RawUserData) -> (res: Result<
        (F, RawUserData),
        PollError,
    >)
        requires
            old(self).wf(),
        ensures
            final(self).wf(),
            final(self).next_handle() == old(self).next_handle(),
            res == poll_begin_result(old(self).tasks(), handle),
            final(self).tasks() == poll_begun(old(self).tasks(), handle),
    {
        match self.tasks.remove(&handle) {
            None => {
                assert(self.tasks@ =~= old(self).tasks@);
                Err(PollError::UnknownTask)
            },
            Some(task) => {
                let mut task = task;
                let res = task.lock();
                self.tasks.insert(handle, task);
                assert(self.tasks@ =~= poll_begun(old(self).tasks@, handle));
                res
            },
        }
    }

    /// Gives back the future of the task `handle` with what polling it gave.
    /// Returns `true` exactly when that poll found the future pending. A
    /// pending task keeps its future; a completed task keeps none and is not
    /// polled again. When the task was dropped while its future was out, the
    /// future is dropped and the tasks stay as they are.
    pub fn poll_end(&mut self, handle: RawUserData, future: F, outcome: PollState) -> (pending:
        bool)
        requires
            old(self).wf(),
        ensures
            final(self).wf(),
            final(self).next_handle() == old(self).next_handle(),
            pending == (outcome is Pending),
            final(self).tasks() == poll_ended(old(self).tasks(), handle, future, outcome),
    {
        match self.tasks.remove(&handle) {
            None => {
                assert(self.tasks@ =~= old(self).tasks@);
                outcome.is_pending()
            },
            Some(task) => {
                let mut task = task;
                let pending = if task.is_polling() {
                    task.poll(future, outcome)
                } else {
                    outcome.is_pending()
                };
                self.tasks.insert(handle, task);
                assert(self.tasks@ =~= poll_ended(old(self).tasks@, handle, future, outcome));
                pending
            },
        }
    }

    /// Drops the task `handle` and returns it, if it is live.
    pub fn drop_task(&mut self, handle: RawUserData) -> (res: Option<Task<F>>)
        requires
            old(self).wf(),
        ensures
            final(self).wf(),
            final(self).next_handle() == old(self).next_handle(),
            final(self).tasks() == old(self).tasks().remove(handle),
            res == (if old(self).tasks().contains_key(handle) {
                Some(old(self).tasks()[handle])
            } else {
                None::<Task<F>>
            }),
    {
        let res = self.tasks.remove(&handle);
        assert(self.tasks@ =~= old(self).tasks@.remove(handle));
        res
    }
}

/// Creates a task for polling `future` by the external event loop: the task
/// is woken through `data`, the user data of its external task. Returns the
/// handle by which the external side polls and drops it; a handle is never
/// given twice.
pub fn task_wrap<F>(tasks: &mut TaskTable<F>, future: F, data: RawUserData) -> (handle:
    RawUserData)
    requires
        old(tasks).wf(),
        old(tasks).next_handle() < usize::MAX,
    ensures
        final(tasks).wf(),
        handle == old(tasks).next_handle(),
        handle != 0,
        !old(tasks).tasks().contains_key(handle),
        final(tasks).next_handle() == handle + 1,
        final(tasks).tasks() == spawned(old(tasks).tasks(), handle, future, data),
{
    let handle = tasks.next;
    let task = Task::new(future, data);
    tasks.tasks.insert(handle, task);
    tasks.next = handle + 1;
    handle
}

/// Creates a task for polling `future` by the external event loop, as
/// `task_wrap` does: `data` is the user data of its external task, and the
/// returned handle names the task towards the external side.
pub fn task_new_raw<F>(tasks: &mut TaskTable<F>, future: F, data: RawUserData) -> (handle:
    RawUserData)
    requires
        old(tasks).wf(),
        old(tasks).next_handle() < usize::MAX,
    ensures
        final(tasks).wf(),
        handle == old(tasks).next_handle(),
        handle != 0,
        !old(tasks).tasks().contains_key(handle),
        final(tasks).next_handle() == handle + 1,
        final(tasks).tasks() == spawned(old(tasks).tasks(), handle, future, data),
{
    task_wrap(tasks, future, data)
}

/// The first poll of a spawned task gets the very future it was spawned
/// with, and its waker wakes the user data that it was spawned with; other
/// tasks are polled as before.
pub proof fn law_spawned_task_polls_with_its_data<F>(
    tasks: Map<RawUserData, Task<F>>,
    handle: RawUserData,
    future: F,
    data: RawUserData,
    other: RawUserData,
)
    ensures
        poll_begin_result(spawned(tasks, handle, future, data), handle) == Ok::<
            (F, RawUserData),
            PollError,
        >((future, data)),
        other != handle ==> poll_begin_result(spawned(tasks, handle, future, data), other)
            == poll_begin_result(tasks, other),
{
}

/// A poll that finds the future pending undoes its own start: the tasks are
/// as they were before the poll.
pub proof fn law_pending_poll_restores<F>(
    tasks: Map<RawUserData, Task<F>>,
    handle: RawUserData,
    future: F,
)
    requires
        tasks.contains_key(handle),
        tasks[handle].state == TaskState::Idle(future),
    ensures
        poll_begin_result(tasks, handle) == Ok::<(F, RawUserData), PollError>(
            (future, tasks[handle].data),
        ),
        poll_ended(poll_begun(tasks, handle), handle, future, PollState::Pending) == tasks,
{
    assert(poll_ended(poll_begun(tasks, handle), handle, future, PollState::Pending) =~= tasks);
}

/// Two polls of one task never overlap: while its future is out, a task
/// refuses to be polled and stays as it is, whatever else happens to
/// other tasks.
pub proof fn law_polling_task_is_busy<F>(tasks: Map<RawUserData, Task<F>>, handle: RawUserData)
    requires
        tasks.contains_key(handle),
        tasks[handle].state is Polling,
    ensures
        poll_begin_result(tasks, handle) == Err::<(F, RawUserData), PollError>(PollError::Busy),
        poll_begun(tasks, handle) == tasks,
{
    assert(poll_begun(tasks, handle) =~= tasks);
}

/// Polled in turn until its future is ready, a task is polled with its
/// future each time, its waker always wakes the same user data, and after
/// the ready poll it is complete, is never polled again, and every other
/// task is as before. Each poll returns `true` exactly when it found the
/// future pending (`TaskTable::poll_end`), so every poll before the ready
/// one returns `true` and the ready one returns `false`.
pub proof fn law_poll_sequence<F>(
    tasks: Map<RawUserData, Task<F>>,
    handle: RawUserData,
    futures: Seq<F>,
    outcomes: Seq<PollState>,
)
    requires
        tasks.contains_key(handle),
        tasks[handle].state is Idle,
        outcomes.len() >= 1,
        futures.len() == outcomes.len(),
        forall|i: int| 0 <= i < outcomes.len() - 1 ==> #[trigger] outcomes[i] is Pending,
        outcomes.last() is Ready,
    ensures
        forall|k: int|
            0 <= k < outcomes.len() ==> #[trigger] poll_begin_result(
                polls(tasks, handle, futures.take(k), outcomes.take(k)),
                handle,
            ) is Ok && poll_begin_result(
                polls(tasks, handle, futures.take(k), outcomes.take(k)),
                handle,
            )->Ok_0.1 == tasks[handle].data,
        polls(tasks, handle, futures, outcomes).contains_key(handle),
        polls(tasks, handle, futures, outcomes)[handle] == (Task::<F> {
            data: tasks[handle].data,
            state: TaskState::Complete,
        }),
        poll_begin_result(polls(tasks, handle, futures, outcomes), handle) == Err::<
            (F, RawUserData),
            PollError,
        >(PollError::Completed),
        polls(tasks, handle, futures, outcomes).remove(handle) == tasks.remove(handle),
{
    assert forall|k: int| 0 <= k < outcomes.len() implies #[trigger] poll_begin_result(
        polls(tasks, handle, futures.take(k), outcomes.take(k)),
        handle,
    ) is Ok && poll_begin_result(
        polls(tasks, handle, futures.take(k), outcomes.take(k)),
        handle,
    )->Ok_0.1 == tasks[handle].data by {
        lemma_pending_polls(tasks, handle, futures, outcomes, k);
    }
    let n = outcomes.len() - 1;
    lemma_pending_polls(tasks, handle, futures, outcomes, n);
    assert(futures.take(n as int) =~= futures.drop_last());
    assert(outcomes.take(n as int) =~= outcomes.drop_last());
    let before = polls(tasks, handle, futures.take(n as int), outcomes.take(n as int));
    assert(polls(tasks, handle, futures, outcomes).remove(handle) =~= before.remove(handle));
}

/// After `k` pending polls, the task is idle again with its data, and no
/// other task has changed.
proof fn lemma_pending_polls<F>(
    tasks: Map<RawUserData, Task<F>>,
    handle: RawUserData,
    futures: Seq<F>,
    outcomes: Seq<PollState>,
    k: int,
)
    requires
        tasks.contains_key(handle),
        tasks[handle].state is Idle,
        futures.len() == outcomes.len(),
        0 <= k < outcomes.len(),
        forall|i: int| 0 <= i < k ==> #[trigger] outcomes[i] is Pending,
    ensures
        ({
            let t = polls(tasks, handle, futures.take(k), outcomes.take(k));
            &&& t.contains_key(handle)
            &&& t[handle].data == tasks[handle].data
            &&& t[handle].state is Idle
            &&& t.remove(handle) == tasks.remove(handle)
        }),
    decreases k,
{
    if k == 0 {
        assert(outcomes.take(0).len() == 0);
    } else {
        lemma_pending_polls(tasks, handle, futures, outcomes, k - 1);
        assert(futures.take(k).drop_last() =~= futures.take(k - 1));
        assert(outcomes.take(k).drop_last() =~= outcomes.take(k - 1));
        assert(outcomes.take(k).last() == outcomes[k - 1]);
        let prev = polls(tasks, handle, futures.take(k - 1), outcomes.take(k - 1));
        let t = polls(tasks, handle, futures.take(k), outcomes.take(k));
        assert(t.remove(handle) =~= prev.remove(handle));
    }
}

/// A dropped task cannot be polled.
pub proof fn law_dropped_task_is_gone<F>(tasks: Map<RawUserData, Task<F>>, handle: RawUserData)
    ensures
        poll_begin_result(tasks.remove(handle), handle) == Err::<(F, RawUserData), PollError>(
            PollError::UnknownTask,
        ),
{
}

/// The whole life of a task leaves no trace: spawning it, polling it until
/// its future is ready and dropping it gives back the tasks that were
/// there before.
pub proof fn law_task_life_leaves_no_trace<F>(
    tasks: Map<RawUserData, Task<F>>,
    handle: RawUserData,
    future: F,
    data: RawUserData,
)
    requires
        !tasks.contains_key(handle),
    ensures
        poll_ended(
            poll_begun(spawned(tasks, handle, future, data), handle),
            handle,
            future,
            PollState::Ready,
        ).remove(handle) == tasks,
{
    assert(poll_ended(
        poll_begun(spawned(tasks, handle, future, data), handle),
        handle,
        future,
        PollState::Ready,
    ).remove(handle) =~= tasks);
}

/// Spawning adds exactly the idle task of the future, woken through the
/// given user data, and leaves every other task as it was.
pub proof fn law_spawned_adds_only_the_task<F>(
    tasks: Map<RawUserData, Task<F>>,
    handle: RawUserData,
    future: F,
    data: RawUserData,
)
    ensures
        spawned(tasks, handle, future, data).contains_key(handle),
        spawned(tasks, handle, future, data)[handle].data == data,
        spawned(tasks, handle, future, data)[handle].state == TaskState::Idle(future),
        spawned(tasks, handle, future, data).remove(handle) == tasks.remove(handle),
{
    assert(spawned(tasks, handle, future, data).remove(handle) =~= tasks.remove(handle));
}

/// What asking for a task's future gives: the future it holds with its own
/// user data when it is idle, and otherwise the reason it cannot be polled.
pub proof fn law_poll_begin_result_reads_the_task<F>(
    tasks: Map<RawUserData, Task<F>>,
    handle: RawUserData,
    future: F,
)
    ensures
        !tasks.contains_key(handle) ==> poll_begin_result(tasks, handle) == Err::<
            (F, RawUserData),
            PollError,
        >(PollError::UnknownTask),
        tasks.contains_key(handle) && tasks[handle].state == TaskState::Idle(future)
            ==> poll_begin_result(tasks, handle) == Ok::<(F, RawUserData), PollError>(
            (future, tasks[handle].data),
        ),
        tasks.contains_key(handle) && tasks[handle].state is Polling ==> poll_begin_result(
            tasks,
            handle,
        ) == Err::<(F, RawUserData), PollError>(PollError::Busy),
        tasks.contains_key(handle) && tasks[handle].state is Complete ==> poll_begin_result(
            tasks,
            handle,
        ) == Err::<(F, RawUserData), PollError>(PollError::Completed),
{
}

/// Beginning the poll of a task changes that task alone: an idle task is
/// then being polled, with its user data kept; any other task of the table,
/// and a task that is not idle, stays as it was.
pub proof fn law_poll_begun_changes_only_the_task<F>(
    tasks: Map<RawUserData, Task<F>>,
    handle: RawUserData,
)
    ensures
        poll_begun(tasks, handle).remove(handle) == tasks.remove(handle),
        poll_begun(tasks, handle).contains_key(handle) <==> tasks.contains_key(handle),
        tasks.contains_key(handle) ==> poll_begun(tasks, handle)[handle].data
            == tasks[handle].data,
        tasks.contains_key(handle) && tasks[handle].state is Idle ==> poll_begun(
            tasks,
            handle,
        )[handle].state is Polling,
        !(tasks.contains_key(handle) && tasks[handle].state is Idle) ==> poll_begun(
            tasks,
            handle,
        ) == tasks,
{
    assert(poll_begun(tasks, handle).remove(handle) =~= tasks.remove(handle));
    if tasks.contains_key(handle) && !(tasks[handle].state is Idle) {
        assert(poll_begun(tasks, handle) =~= tasks);
    }
}

/// Ending the poll of a task changes that task alone: a task being polled
/// keeps its user data and becomes idle with the given future when the
/// poll was pending, complete when it was ready; any other task, and a
/// task that is not being polled, stays as it was.
pub proof fn law_poll_ended_changes_only_the_task<F>(
    tasks: Map<RawUserData, Task<F>>,
    handle: RawUserData,
    future: F,
    outcome: PollState,
)
    ensures
        poll_ended(tasks, handle, future, outcome).remove(handle) == tasks.remove(handle),
        tasks.contains_key(handle) && tasks[handle].state is Polling ==> {
            &&& poll_ended(tasks, handle, future, outcome).contains_key(handle)
            &&& poll_ended(tasks, handle, future, outcome)[handle].data == tasks[handle].data
            &&& outcome is Pending ==> poll_ended(tasks, handle, future, outcome)[handle].state
                == TaskState::Idle(future)
            &&& outcome is Ready ==> poll_ended(tasks, handle, future, outcome)[handle].state
                is Complete
        },
        !(tasks.contains_key(handle) && tasks[handle].state is Polling) ==> poll_ended(
            tasks,
            handle,
            future,
            outcome,
        ) == tasks,
{
    assert(poll_ended(tasks, handle, future, outcome).remove(handle) =~= tasks.remove(handle));
}

/// A task spawned while another task is being polled keeps its own user
/// data when that poll ends, whatever it gave: its first poll gets its
/// future and wakes the external task it was spawned with.
pub proof fn law_poll_of_one_task_keeps_another<F>(
    tasks: Map<RawUserData, Task<F>>,
    polled_handle: RawUserData,
    polled_future: F,
    outcome: PollState,
    handle: RawUserData,
    future: F,
    data: RawUserData,
)
    requires
        polled_handle != handle,
    ensures
        poll_begin_result(
            poll_ended(
                spawned(poll_begun(tasks, polled_handle), handle, future, data),
                polled_handle,
                polled_future,
                outcome,
            ),
            handle,
        ) == Ok::<(F, RawUserData), PollError>((future, data)),
{
}

} // verus!
