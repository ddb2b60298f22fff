//! The libuv driver: one async handle per external task.
//!
//! Creating an external task allocates and initialises an async handle on
//! the loop; running it stores the Rust-side task in the handle and sends
//! the handle, and every wake sends it again. When the loop calls back on
//! the handle, the driver polls its task; once the task is no longer
//! pending, the driver drops the task and closes the handle.

use vstd::prelude::*;

use crate::driver::{dropped, ran, ExternTasks};
use crate::task::RawUserData;

verus! {

/// A libuv loop, as the external side hands it to the driver.
pub struct UvLoop {}

/// What the driver does after it has polled the task of a handle.
pub enum UvPollAction {
    /// The task is still pending: the handle waits for the next wake.
    Wait,
    /// The task has completed: drop the Rust-side task `task` and close the
    /// handle.
    Finish { task: RawUserData },
}

/// Stores the Rust-side task `data` in the async handle `handle` and
/// returns the handle to send, which makes the loop poll the task a first
/// time.
pub fn task_run(handles: &mut ExternTasks, handle: RawUserData, data: RawUserData) -> (send:
    RawUserData)
    requires
        old(handles).wf(),
        old(handles).tasks().contains_key(handle),
    ensures
        final(handles).wf(),
        final(handles).tasks() == ran(old(handles).tasks(), handle, data),
        send == handle,
{
    handles.task_run(handle, data);
    handle
}

/// Decides, after the task of `handle` was polled, whether the handle stays
/// (`pending`) or is closed together with its task, which is then forgotten.
pub fn task_poll(handles: &mut ExternTasks, handle: RawUserData, pending: bool) -> (action:
    UvPollAction)
    requires
        old(handles).wf(),
        old(handles).tasks().contains_key(handle),
    ensures
        final(handles).wf(),
        pending ==> {
            &&& action == UvPollAction::Wait
            &&& final(handles).tasks() == old(handles).tasks()
        },
        !pending ==> {
            &&& action == (UvPollAction::Finish { task: old(handles).tasks()[handle] })
            &&& final(handles).tasks() == dropped(old(handles).tasks(), handle)
        },
{
    if pending {
        UvPollAction::Wait
    } else {
        let task = handles.task_drop(handle);
        UvPollAction::Finish { task: task.unwrap() }
    }
}

/// A handle that was run with the Rust-side task `data` finishes exactly
/// that task once it completes: the action of a ready poll after `task_run`
/// names `data`, and closing the handle leaves the other handles as they
/// were.
pub proof fn law_ready_poll_finishes_the_run_task(
    handles: Map<RawUserData, RawUserData>,
    handle: RawUserData,
    data: RawUserData,
)
    ensures
        ran(handles, handle, data).contains_key(handle),
        (UvPollAction::Finish { task: ran(handles, handle, data)[handle] }) == (
        UvPollAction::Finish { task: data }),
        dropped(ran(handles, handle, data), handle) == handles.remove(handle),
{
    assert(dropped(ran(handles, handle, data), handle) =~= handles.remove(handle));
}

} // verus!
