//! The Dart driver: external tasks are woken by posting their address to a
//! Dart port, from which the Dart side reads the tasks to poll.

use vstd::prelude::*;

use crate::driver::{created, data_of, dropped, ran, ExternTasks};
use crate::task::RawUserData;

verus! {

/// Dart's message structure, as the external side hands it over.
pub struct DartCObject {}

/// Reads `dart_sys::Dart_CObject_Type_Dart_CObject_kInt64`, the type tag of
/// a Dart message that carries a 64-bit integer; dart-sys defines it as
/// `Dart_CObject_Type(3)`, whose field this returns.
#[verifier::external_body]
fn int64_kind() -> (kind: i32)
    ensures
        kind == 3,
{
    dart_sys::Dart_CObject_Type_Dart_CObject_kInt64.0
}

/// A message to post: through the function at address `post`, to the port
/// `port`, a value of type tag `kind`.
pub struct DartMessage {
    pub post: RawUserData,
    pub port: i64,
    pub kind: i32,
    pub value: i64,
}

/// The state of the Dart driver: the port that wakes go to, the function
/// that posts them (none until the loop is initialised) and the external
/// tasks.
pub struct DartDriver {
    wake_port: i64,
    task_post: Option<RawUserData>,
    tasks: ExternTasks,
}

/// The wake of the external task `task`: its address, as a 64-bit integer
/// message posted to `port` through `post`.
pub open spec fn wake_message(post: RawUserData, port: i64, task: RawUserData) -> DartMessage {
    DartMessage { post, port, kind: 3, value: task as i64 }
}

impl DartDriver {
    /// The port that wakes are posted to.
    pub closed spec fn wake_port(&self) -> i64 {
        self.wake_port
    }

    /// The function that posts wakes, once the loop is initialised.
    pub closed spec fn task_post(&self) -> Option<RawUserData> {
        self.task_post
    }

    /// The external tasks, by address, with the Rust-side task of each.
    pub closed spec fn tasks(&self) -> Map<RawUserData, RawUserData> {
        self.tasks.tasks()
    }

    pub closed spec fn wf(&self) -> bool {
        self.tasks.wf()
    }

    /// The driver before its loop is initialised.
    pub fn new() -> (res: Self)
        ensures
            res.wf(),
            res.wake_port() == 0,
            res.task_post() == None::<RawUserData>,
            res.tasks() == Map::<RawUserData, RawUserData>::empty(),
    {
        DartDriver { wake_port: 0, task_post: None, tasks: ExternTasks::new() }
    }

    /// Whether the loop was initialised with a function that posts wakes.
    pub fn is_initialized(&self) -> (res: bool)
        ensures
            res == (self.task_post() is Some),
    {
        self.task_post.is_some()
    }

    /// Initialises the loop: wakes go to `wake_port`, posted through the
    /// function at `task_post`, which must not be null.
    pub fn loop_init(&mut self, wake_port: i64, task_post: RawUserData)
        requires
            old(self).wf(),
            task_post != 0,
        ensures
            final(self).wf(),
            final(self).wake_port() == wake_port,
            final(self).task_post() == Some(task_post),
            final(self).tasks() == old(self).tasks(),
    {
        self.wake_port = wake_port;
        self.task_post = Some(task_post);
    }

    /// Records the new external task `task`, which polls nothing yet.
    pub fn task_new(&mut self, task: RawUserData)
        requires
            old(self).wf(),
            task != 0,
            !old(self).tasks().contains_key(task),
        ensures
            final(self).wf(),
            final(self).wake_port() == old(self).wake_port(),
            final(self).task_post() == old(self).task_post(),
            final(self).tasks() == created(old(self).tasks(), task),
    {
        self.tasks.task_new(task);
    }

    /// The message that wakes the external task `task`.
    pub fn task_wake(&self, task: RawUserData) -> (msg: DartMessage)
        requires
            self.task_post() is Some,
        ensures
            msg == wake_message(self.task_post()->0, self.wake_port(), task),
    {
        let post = match self.task_post {
            Some(post) => post,
            None => 0,
        };
        DartMessage { post, port: self.wake_port, kind: int64_kind(), value: task as i64 }
    }

    /// Attaches the Rust-side task `data` to the external task `task` and
    /// returns the message that wakes `task` for its first poll.
    pub fn task_run(&mut self, task: RawUserData, data: RawUserData) -> (msg: DartMessage)
        requires
            old(self).wf(),
            old(self).task_post() is Some,
            old(self).tasks().contains_key(task),
        ensures
            final(self).wf(),
            final(self).wake_port() == old(self).wake_port(),
            final(self).task_post() == old(self).task_post(),
            final(self).tasks() == ran(old(self).tasks(), task, data),
            msg == wake_message(old(self).task_post()->0, old(self).wake_port(), task),
    {
        self.tasks.task_run(task, data);
        self.task_wake(task)
    }

    /// The Rust-side task that the external task `task` polls, if `task`
    /// is live.
    pub fn task_poll(&self, task: RawUserData) -> (res: Option<RawUserData>)
        ensures
            res == data_of(self.tasks(), task),
    {
        self.tasks.task_data(task)
    }

    /// Deletes the external task `task` and returns the Rust-side task that
    /// it polled, to be dropped too.
    pub fn task_drop(&mut self, task: RawUserData) -> (res: Option<RawUserData>)
        requires
            old(self).wf(),
        ensures
            final(self).wf(),
            final(self).wake_port() == old(self).wake_port(),
            final(self).task_post() == old(self).task_post(),
            final(self).tasks() == dropped(old(self).tasks(), task),
            res == data_of(old(self).tasks(), task),
    {
        self.tasks.task_drop(task)
    }
}

/// A wake goes to the configured port, through the configured function, as
/// a 64-bit integer message.
pub proof fn law_wake_message_targets_port(post: RawUserData, port: i64, task: RawUserData)
    ensures
        wake_message(post, port, task).port == port,
        wake_message(post, port, task).post == post,
        wake_message(post, port, task).kind == 3,
{
}

/// The Dart side reads the task back from the message: the value is the
/// task's address whenever that address fits a 64-bit signed integer.
pub proof fn law_wake_value_is_address(post: RawUserData, port: i64, task: RawUserData)
    requires
        task <= i64::MAX,
    ensures
        wake_message(post, port, task).value == task,
{
}

} // verus!
