//! Views and event handlers that wait for asynchronous tasks: a task runs on the
//! runtime, its waker sends an `AsyncWake` message to the view that spawned it, and the
//! view polls the task when the message arrives.
use vstd::prelude::*;

use std::future::Future;
use std::task::Waker;
use tokio::runtime::Handle;
use tokio::task::{JoinError, JoinHandle, Unconstrained};

use crate::id::Id;

verus! {

/// The waker of an asynchronous task (`std::task::Waker`).
#[verifier::external_type_specification]
#[verifier::external_body]
pub struct ExWaker(Waker);

/// A handle on the asynchronous runtime (`tokio::runtime::Handle`).
#[verifier::external_type_specification]
#[verifier::external_body]
pub struct ExRuntimeHandle(Handle);

/// A task spawned on the runtime (`tokio::task::JoinHandle`).
#[verifier::external_type_specification]
#[verifier::external_body]
#[verifier::reject_recursive_types(T)]
pub struct ExJoinHandle<T>(JoinHandle<T>);

/// A future that the runtime polls without cooperative budget (`tokio::task::Unconstrained`).
#[verifier::external_type_specification]
#[verifier::external_body]
#[verifier::reject_recursive_types(F)]
pub struct ExUnconstrained<F>(Unconstrained<F>);

/// The error of a task that failed (`tokio::task::JoinError`).
#[verifier::external_type_specification]
#[verifier::external_body]
pub struct ExJoinError(JoinError);

/// What polling a task gave.
pub enum TaskPoll<T> {
    /// The task finished with this value.
    Ready(T),
    /// The task failed (it panicked or was cancelled).
    Failed,
    /// The task has not finished yet.
    Pending,
}

/// Polls the task of `pending` once, with its waker as the waker to call when the task
/// can make progress (`Future::poll` of `tokio::task::Unconstrained<JoinHandle<T>>`).
/// tokio panics when a handle is polled again after it has given its outcome, so the
/// task must not be marked finished: `PendingTask` marks it so once a poll gave an
/// outcome, and a task handed to `PendingTask::new` has not been polled to completion.
/// What comes back depends on the task and on when it is polled, so nothing is stated
/// of it; the waker, the result kept so far and the mark are left as they were.
#[verifier::external_body]
fn poll_join_handle<T>(pending: &mut PendingTask<T>) -> (r: TaskPoll<T>)
    requires
        !old(pending).finished,
    ensures
        final(pending).waker == old(pending).waker,
        final(pending).result_spec() == old(pending).result_spec(),
        final(pending).finished == old(pending).finished,
{
    let mut context = std::task::Context::from_waker(&pending.waker);
    match std::pin::Pin::new(&mut pending.task).poll(&mut context) {
        std::task::Poll::Ready(Ok(value)) => TaskPoll::Ready(value),
        std::task::Poll::Ready(Err(_)) => TaskPoll::Failed,
        std::task::Poll::Pending => TaskPoll::Pending,
    }
}

/// An asynchronous task together with the waker that its polls use, its result once it
/// has finished, and whether a poll has given its outcome already (it is then never
/// polled again).
#[verifier::reject_recursive_types(T)]
pub struct PendingTask<T> {
    waker: Waker,
    task: Unconstrained<JoinHandle<T>>,
    finished: bool,
    result: Option<T>,
}

impl<T> PendingTask<T> {
    /// The waker that the polls of the task use.
    pub closed spec fn waker_spec(&self) -> Waker {
        self.waker
    }

    /// The value of the finished task, until it is taken.
    pub closed spec fn result_spec(&self) -> Option<T> {
        self.result
    }

    /// Whether a poll has given the task's outcome (a value or a failure).
    pub closed spec fn is_finished(&self) -> bool {
        self.finished
    }

    /// The task `task`, polled with `waker`, without a result yet. `task` must not have
    /// been polled to completion before.
    pub fn new(waker: Waker, task: Unconstrained<JoinHandle<T>>) -> (r: Self)
        ensures
            r.waker_spec() == waker,
            !r.is_finished(),
            r.result_spec() is None,
    {
        PendingTask { waker, task, finished: false, result: None }
    }

    /// Takes note of what a poll gave: a finished task leaves its value in `result`
    /// and answers `true`; a failed one answers `false` and leaves `result` as it was;
    /// either way the task counts as finished from then on. An unfinished one changes
    /// nothing and answers `false`.
    pub fn apply_poll(&mut self, outcome: TaskPoll<T>) -> (r: bool)
        ensures
            final(self).waker_spec() == old(self).waker_spec(),
            match outcome {
                TaskPoll::Ready(v) => r && final(self).result_spec() == Some(v) && final(self).is_finished(),
                TaskPoll::Failed => !r && final(self).result_spec() == old(self).result_spec()
                    && final(self).is_finished(),
                TaskPoll::Pending => !r && final(self).result_spec() == old(self).result_spec()
                    && final(self).is_finished() == old(self).is_finished(),
            },
    {
        match outcome {
            TaskPoll::Ready(v) => {
                self.result = Some(v);
                self.finished = true;
                true
            },
            TaskPoll::Failed => {
                self.finished = true;
                false
            },
            TaskPoll::Pending => false,
        }
    }

    /// Takes the value of the finished task out, leaving none.
    pub fn take_result(&mut self) -> (r: Option<T>)
        ensures
            r == old(self).result_spec(),
            final(self).result_spec() is None,
            final(self).waker_spec() == old(self).waker_spec(),
            final(self).is_finished() == old(self).is_finished(),
    {
        self.result.take()
    }

    /// Polls the task once, unless a poll gave its outcome already; `true` when it has
    /// finished now with a value, which is then in `result`. A finished task is not
    /// polled again: it answers `false` and stays as it is.
    pub fn poll(&mut self) -> (r: bool)
        ensures
            final(self).waker_spec() == old(self).waker_spec(),
            old(self).is_finished() ==> !r && final(self).is_finished() && final(self).result_spec()
                == old(self).result_spec(),
            r ==> final(self).result_spec() is Some && final(self).is_finished(),
            !r ==> final(self).result_spec() == old(self).result_spec(),
    {
        if self.finished {
            return false;
        }
        let outcome = poll_join_handle(self);
        self.apply_poll(outcome)
    }
}

/// The state of the content of a deferred view: the initial view until the task has
/// given the real one.
pub enum ViewState<IS, S> {
    Init(IS),
    Resolved(S),
}

/// A view that shows `init_view` until the future that `callback` makes has given the
/// view to show.
pub struct Defer<F, IV> {
    pub callback: F,
    pub init_view: IV,
}

/// The view that shows `init` until the future that `deferred` returns resolves to the
/// view to show in its place.
pub fn defer_view<F, IV>(deferred: F, init: IV) -> (r: Defer<F, IV>)
    ensures
        r.callback == deferred,
        r.init_view == init,
{
    Defer { callback: deferred, init_view: init }
}

/// The state of a deferred view: the id and the state of what it shows, the view that
/// the task gave (once it has), and the task.
#[verifier::reject_recursive_types(V)]
pub struct DeferState<V, IS, S> {
    pub view_id: Id,
    pub view: Option<V>,
    pub view_state: ViewState<IS, S>,
    pub task: PendingTask<V>,
}

/// What a rebuild of a deferred view has to do.
#[derive(Clone, Copy, Debug, PartialEq, Eq, Structural)]
pub enum DeferRebuild {
    /// The view from the task is there but not built: build it in place of the initial
    /// view (the tree structure changes).
    BuildResolved,
    /// Still waiting: rebuild the initial view and count the task as pending.
    RebuildInit,
    /// The resolved view is shown already; it is not rebuilt.
    Unchanged,
}

/// A change of a deferred view's state as the library makes it: the view shown either
/// stays what it was or becomes the resolved one.
pub open spec fn defer_step<V, IS, S>(before: DeferState<V, IS, S>, after: DeferState<V, IS, S>) -> bool {
    after.view_state == before.view_state || after.view_state is Resolved
}

/// Law: once a deferred view shows the resolved view, it never goes back to the
/// initial one, whatever steps (see [`defer_step`]) follow.
pub proof fn lemma_resolved_stays_resolved<V, IS, S>(states: Seq<DeferState<V, IS, S>>, i: int)
    requires
        forall|k: int| 0 <= k < states.len() - 1 ==> #[trigger] defer_step(states[k], states[k + 1]),
        states.len() > 0,
        states[0].view_state is Resolved,
        0 <= i < states.len(),
    ensures
        states[i].view_state is Resolved,
    decreases i,
{
    if i > 0 {
        lemma_resolved_stays_resolved(states, i - 1);
        let k = i - 1;
        assert(defer_step(states[k], states[k + 1]));
    }
}

impl<V, IS, S> DeferState<V, IS, S> {
    /// The state of a deferred view whose task gave `view` at once: that view, built
    /// with id `view_id` and state `view_state`, is shown from the start.
    pub fn resolved(view_id: Id, view: V, view_state: S, task: PendingTask<V>) -> (r: Self)
        ensures
            r.view_id == view_id,
            r.view == Some(view),
            r.view_state == ViewState::<IS, S>::Resolved(view_state),
            r.task == task,
    {
        DeferState { view_id, view: Some(view), view_state: ViewState::Resolved(view_state), task }
    }

    /// The state of a deferred view whose task has not given its view yet: the initial
    /// view, built with id `view_id` and state `init_state`, is shown meanwhile.
    pub fn waiting(view_id: Id, init_state: IS, task: PendingTask<V>) -> (r: Self)
        ensures
            r.view_id == view_id,
            r.view is None,
            r.view_state == ViewState::<IS, S>::Init(init_state),
            r.task == task,
    {
        DeferState { view_id, view: None, view_state: ViewState::Init(init_state), task }
    }

    /// Whether the initial view is still shown: the view then counts as waiting for its
    /// task when it is built or rebuilt.
    pub fn is_waiting(&self) -> (r: bool)
        ensures
            r == self.view_state is Init,
    {
        match self.view_state {
            ViewState::Init(_) => true,
            ViewState::Resolved(_) => false,
        }
    }

    /// Shows the view that the task gave, now built with id `view_id` and state
    /// `view_state`, in place of the initial view. It stays shown from then on.
    pub fn resolve(&mut self, view_id: Id, view_state: S)
        ensures
            final(self).view_id == view_id,
            final(self).view_state == ViewState::<IS, S>::Resolved(view_state),
            final(self).view == old(self).view,
            final(self).task == old(self).task,
            defer_step(*old(self), *final(self)),
    {
        self.view_id = view_id;
        self.view_state = ViewState::Resolved(view_state);
    }

    /// Handles the wake-up message of the task: polls it, and keeps the view that it
    /// gave. `true` (a rebuild is needed) exactly when the task has finished.
    pub fn on_async_wake(&mut self) -> (r: bool)
        ensures
            defer_step(*old(self), *final(self)),
            final(self).view_id == old(self).view_id,
            final(self).view_state == old(self).view_state,
            r ==> final(self).view is Some && final(self).task.result_spec() is None,
            !r ==> final(self).view == old(self).view && final(self).task.result_spec() == old(self).task.result_spec(),
    {
        if self.task.poll() {
            self.view = self.task.take_result();
            true
        } else {
            false
        }
    }

    /// Decides what a rebuild does: while the initial view is shown and no view has
    /// come yet, the task is polled once; then a view that is there is built, else the
    /// initial view is rebuilt; once resolved, nothing is rebuilt.
    pub fn rebuild_step(&mut self) -> (r: DeferRebuild)
        ensures
            defer_step(*old(self), *final(self)),
            final(self).view_id == old(self).view_id,
            final(self).view_state == old(self).view_state,
            old(self).view_state is Resolved <==> r == DeferRebuild::Unchanged,
            r == DeferRebuild::Unchanged ==> final(self).view == old(self).view,
            old(self).view is Some ==> final(self).view == old(self).view,
            old(self).view_state is Init && old(self).view is Some ==> r
                == DeferRebuild::BuildResolved,
            r == DeferRebuild::BuildResolved ==> final(self).view is Some,
            r == DeferRebuild::RebuildInit ==> final(self).view is None
                && final(self).task.result_spec() == old(self).task.result_spec(),
    {
        let is_init = match self.view_state {
            ViewState::Init(_) => true,
            ViewState::Resolved(_) => false,
        };
        if self.view.is_none() && is_init && self.task.poll() {
            self.view = self.task.take_result();
        }
        if !is_init {
            DeferRebuild::Unchanged
        } else if self.view.is_some() {
            DeferRebuild::BuildResolved
        } else {
            DeferRebuild::RebuildInit
        }
    }
}

/// An event handler that turns an event into a future with `future_fn`, and hands the
/// future's output to `callback_fn` once it is ready.
pub struct DeferEventHandler<FF, CF> {
    pub future_fn: FF,
    pub callback_fn: CF,
}

/// The event handler that runs the future that `future_fn` makes of an event and then
/// calls `callback_fn` with its output.
pub fn defer<FF, CF>(future_fn: FF, callback_fn: CF) -> (r: DeferEventHandler<FF, CF>)
    ensures
        r.future_fn == future_fn,
        r.callback_fn == callback_fn,
{
    DeferEventHandler { future_fn, callback_fn }
}

/// The state of a deferred event handler: the task it waits for (if any), the runtime
/// that runs its tasks and the waker that its tasks use.
#[verifier::reject_recursive_types(FO)]
pub struct DeferHandlerState<FO> {
    pub task: Option<PendingTask<FO>>,
    pub runtime: Handle,
    pub waker: Waker,
}

/// What the wake-up of a deferred event handler's task leads to.
pub enum DeferWake<FO> {
    /// No task is waited for: the message is stale.
    Stale,
    /// The task has not finished.
    Nop,
    /// The task finished with this output: call the callback and rebuild.
    Completed(FO),
}

impl<FO> DeferHandlerState<FO> {
    /// Whether a task is still waited for (it then counts as pending on a rebuild).
    pub fn is_pending(&self) -> (r: bool)
        ensures
            r == self.task is Some,
    {
        self.task.is_some()
    }

    /// Handles the wake-up message: without a task it is stale; else the task is polled,
    /// and a finished task is dropped and its output handed out.
    pub fn on_async_wake(&mut self) -> (r: DeferWake<FO>)
        ensures
            old(self).task is None ==> r is Stale && final(self).task is None,
            old(self).task is Some ==> !(r is Stale),
            r is Completed ==> old(self).task is Some && final(self).task is None,
            r is Nop ==> old(self).task is Some && final(self).task is Some
                && final(self).task->0.waker_spec() == old(self).task->0.waker_spec()
                && final(self).task->0.result_spec() == old(self).task->0.result_spec(),
            final(self).runtime == old(self).runtime,
            final(self).waker == old(self).waker,
    {
        match self.task.take() {
            None => DeferWake::Stale,
            Some(mut task) => {
                if task.poll() {
                    match task.take_result() {
                        Some(output) => DeferWake::Completed(output),
                        None => {
                            self.task = Some(task);
                            DeferWake::Stale
                        },
                    }
                } else {
                    self.task = Some(task);
                    DeferWake::Nop
                }
            },
        }
    }

    /// Takes over a freshly spawned task: it is polled at once; when it has finished
    /// already its output is handed out and no task is kept, else it is kept and waited
    /// for.
    pub fn on_spawned(&mut self, task: PendingTask<FO>) -> (r: Option<FO>)
        ensures
            r is Some ==> final(self).task is None,
            r is None ==> final(self).task is Some && final(self).task->0.waker_spec() == task.waker_spec()
                && final(self).task->0.result_spec() == task.result_spec(),
            final(self).runtime == old(self).runtime,
            final(self).waker == old(self).waker,
    {
        let mut task = task;
        if task.poll() {
            match task.take_result() {
                Some(output) => {
                    self.task = None;
                    Some(output)
                },
                None => None,
            }
        } else {
            self.task = Some(task);
            None
        }
    }
}

} // verus!
