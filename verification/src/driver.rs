//! The external tasks of an event-loop driver.
//!
//! A driver creates one external task per spawned future. The external task
//! is created empty; running it attaches the handle of the Rust-side task
//! that it polls. The driver then polls that handle whenever the loop wakes
//! the external task, and forgets the external task once it is dropped.

use std::collections::HashMap;
use vstd::prelude::*;

use crate::task::{poll_begin_result, spawned, PollError, RawUserData, Task};

verus! {

broadcast use vstd::std_specs::hash::group_hash_axioms;

/// The external tasks after `task` was created: it polls nothing yet.
pub open spec fn created(tasks: Map<RawUserData, RawUserData>, task: RawUserData) -> Map<
    RawUserData,
    RawUserData,
> {
    tasks.insert(task, 0)
}

/// The external tasks after `task` was run with the Rust-side task `data`.
pub open spec fn ran(tasks: Map<RawUserData, RawUserData>, task: RawUserData, data: RawUserData) -> Map<
    RawUserData,
    RawUserData,
> {
    tasks.insert(task, data)
}

/// The external tasks after `task` was dropped.
pub open spec fn dropped(tasks: Map<RawUserData, RawUserData>, task: RawUserData) -> Map<
    RawUserData,
    RawUserData,
> {
    tasks.remove(task)
}

/// What the external task `task` polls, if it is live.
pub open spec fn data_of(tasks: Map<RawUserData, RawUserData>, task: RawUserData) -> Option<
    RawUserData,
> {
    if tasks.contains_key(task) {
        Some(tasks[task])
    } else {
        None
    }
}

/// The external tasks of a driver: for each one, by its address, the handle
/// of the Rust-side task that it polls (null until it is run).
pub struct ExternTasks {
    tasks: HashMap<usize, usize>,
}

impl ExternTasks {
    /// The external tasks, by address, with the handle that each one polls.
    pub closed spec fn tasks(&self) -> Map<RawUserData, RawUserData> {
        self.tasks@
    }

    /// No external task has the null address.
    pub closed spec fn wf(&self) -> bool {
        !self.tasks@.contains_key(0)
    }

    /// No external tasks.
    pub fn new() -> (res: Self)
        ensures
            res.wf(),
            res.tasks() == Map::<RawUserData, RawUserData>::empty(),
    {
        ExternTasks { tasks: HashMap::new() }
    }

    /// Whether `task` is a live external task.
    pub fn contains(&self, task: RawUserData) -> (res: bool)
        ensures
            res == self.tasks().contains_key(task),
    {
        self.tasks.contains_key(&task)
    }

    /// Records the new external task `task`, which polls nothing yet.
    pub fn task_new(&mut self, task: RawUserData)
        requires
            old(self).wf(),
            task != 0,
            !old(self).tasks().contains_key(task),
        ensures
            final(self).wf(),
            final(self).tasks() == created(old(self).tasks(), task),
    {
        self.tasks.insert(task, 0);
    }

    /// Attaches the Rust-side task `data` to the external task `task`.
    pub fn task_run(&mut self, task: RawUserData, data: RawUserData)
        requires
            old(self).wf(),
            old(self).tasks().contains_key(task),
        ensures
            final(self).wf(),
            final(self).tasks() == ran(old(self).tasks(), task, data),
    {
        self.tasks.insert(task, data);
    }

    /// The Rust-side task that the external task `task` polls, if `task` is
    /// live.
    pub fn task_data(&self, task: RawUserData) -> (res: Option<RawUserData>)
        ensures
            res == data_of(self.tasks(), task),
    {
        match self.tasks.get(&task) {
            Some(data) => Some(*data),
            None => None,
        }
    }

    /// Forgets the external task `task` and returns the Rust-side task that
    /// it polled, if `task` was live.
    pub fn task_drop(&mut self, task: RawUserData) -> (res: Option<RawUserData>)
        requires
            old(self).wf(),
        ensures
            final(self).wf(),
            final(self).tasks() == dropped(old(self).tasks(), task),
            res == data_of(old(self).tasks(), task),
    {
        let res = self.tasks.remove(&task);
        proof {
            assert(self.tasks@ =~= old(self).tasks@.remove(task));
        }
        res
    }
}

/// The life of an external task: once created and run with the Rust-side
/// task `data`, it polls `data`; dropping it then hands `data` back and
/// leaves the external tasks as they were before it was created.
pub proof fn law_extern_task_life(
    tasks: Map<RawUserData, RawUserData>,
    task: RawUserData,
    data: RawUserData,
)
    requires
        !tasks.contains_key(task),
    ensures
        data_of(ran(created(tasks, task), task, data), task) == Some(data),
        dropped(ran(created(tasks, task), task, data), task) == tasks,
{
    assert(dropped(ran(created(tasks, task), task, data), task) =~= tasks);
}

/// Spawning pairs an external task with a Rust-side task: the future is
/// spawned as `handle` with the external task `task` as its user data, and
/// `task` is run with `handle`. Then `task` polls exactly `handle`, and the
/// waker of each poll of `handle` wakes exactly `task`.
pub proof fn law_spawn_pairs_tasks<F>(
    extern_tasks: Map<RawUserData, RawUserData>,
    tasks: Map<RawUserData, Task<F>>,
    task: RawUserData,
    handle: RawUserData,
    future: F,
)
    ensures
        data_of(ran(extern_tasks, task, handle), task) == Some(handle),
        poll_begin_result(spawned(tasks, handle, future, task), handle) == Ok::<
            (F, RawUserData),
            PollError,
        >((future, task)),
{
}

/// Creating an external task adds it, polling nothing, and leaves every
/// other external task, with the Rust-side task it polls, as it was.
pub proof fn law_created_adds_only_the_task(
    tasks: Map<RawUserData, RawUserData>,
    task: RawUserData,
    other: RawUserData,
)
    ensures
        created(tasks, task).contains_key(task),
        created(tasks, task)[task] == 0,
        created(tasks, task).remove(task) == tasks.remove(task),
        other != task ==> (created(tasks, task).contains_key(other) <==> tasks.contains_key(
            other,
        )),
        other != task && tasks.contains_key(other) ==> created(tasks, task)[other] == tasks[other],
        !tasks.contains_key(task) ==> created(tasks, task).remove(task) == tasks,
{
    assert(created(tasks, task).remove(task) =~= tasks.remove(task));
    if !tasks.contains_key(task) {
        assert(created(tasks, task).remove(task) =~= tasks);
    }
}

/// Running an external task records exactly the Rust-side task it was run
/// with, and leaves every other external task as it was.
pub proof fn law_ran_records_the_data(
    tasks: Map<RawUserData, RawUserData>,
    task: RawUserData,
    data: RawUserData,
    other: RawUserData,
)
    ensures
        ran(tasks, task, data).contains_key(task),
        ran(tasks, task, data)[task] == data,
        ran(tasks, task, data).remove(task) == tasks.remove(task),
        other != task ==> (ran(tasks, task, data).contains_key(other) <==> tasks.contains_key(
            other,
        )),
        other != task && tasks.contains_key(other) ==> ran(tasks, task, data)[other]
            == tasks[other],
{
    assert(ran(tasks, task, data).remove(task) =~= tasks.remove(task));
}

/// Dropping an external task removes it and nothing else: every other
/// external task keeps the Rust-side task it polls.
pub proof fn law_dropped_removes_only_the_task(
    tasks: Map<RawUserData, RawUserData>,
    task: RawUserData,
    other: RawUserData,
)
    ensures
        !dropped(tasks, task).contains_key(task),
        dropped(tasks, task) == tasks.remove(task),
        other != task ==> (dropped(tasks, task).contains_key(other) <==> tasks.contains_key(
            other,
        )),
        other != task && tasks.contains_key(other) ==> dropped(tasks, task)[other]
            == tasks[other],
{
}

/// Looking an external task up gives the Rust-side task that the table
/// records for it, and nothing for an external task that is not there.
pub proof fn law_data_of_reads_the_record(
    tasks: Map<RawUserData, RawUserData>,
    task: RawUserData,
    data: RawUserData,
)
    ensures
        data_of(tasks, task) is None <==> !tasks.contains_key(task),
        data_of(tasks, task) == Some(data) <==> (tasks.contains_key(task) && tasks[task] == data),
{
}

/// Creating a second external task while a first one is live leaves what
/// the first one polls untouched, and so does dropping the second.
pub proof fn law_other_tasks_keep_their_data(
    tasks: Map<RawUserData, RawUserData>,
    first: RawUserData,
    second: RawUserData,
    data: RawUserData,
)
    requires
        first != second,
    ensures
        data_of(created(ran(tasks, first, data), second), first) == Some(data),
        data_of(dropped(created(ran(tasks, first, data), second), second), first) == Some(data),
{
}

} // verus!
