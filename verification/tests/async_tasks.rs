use std::time::Duration;

use trui::id::Id;
use trui::view::defer::{
    defer, defer_view, DeferHandlerState, DeferRebuild, DeferState, DeferWake, PendingTask,
    TaskPoll, ViewState,
};
use trui::view::events::{stream, Received, StreamEventHandlerState, StreamMessage};

fn spawn_task<T: Send + 'static>(rt: &tokio::runtime::Runtime, value: T) -> PendingTask<T> {
    let handle = rt.spawn(async move { value });
    PendingTask::new(futures_task::noop_waker(), tokio::task::unconstrained(handle))
}

fn pause(rt: &tokio::runtime::Runtime, millis: u64) {
    rt.block_on(async { tokio::time::sleep(Duration::from_millis(millis)).await });
}

fn wait_ready<T>(rt: &tokio::runtime::Runtime, task: &mut PendingTask<T>) -> bool {
    for _ in 0..200 {
        if task.poll() {
            return true;
        }
        pause(rt, 5);
    }
    false
}

#[test]
fn pending_task_delivers_its_result() {
    let rt = tokio::runtime::Runtime::new().unwrap();
    let mut task = spawn_task(&rt, 7u32);
    assert!(task.take_result().is_none());
    assert!(wait_ready(&rt, &mut task));
    assert_eq!(task.take_result(), Some(7));
}

#[test]
fn apply_poll_keeps_result_unless_ready() {
    let rt = tokio::runtime::Runtime::new().unwrap();
    let mut task = spawn_task(&rt, 1u32);
    assert!(!task.apply_poll(TaskPoll::Pending));
    assert!(!task.apply_poll(TaskPoll::Failed));
    assert_eq!(task.take_result(), None);
    assert!(task.apply_poll(TaskPoll::Ready(9)));
    assert_eq!(task.take_result(), Some(9));
}

#[test]
fn deferred_view_builds_the_resolved_view_once() {
    let rt = tokio::runtime::Runtime::new().unwrap();
    let view = defer_view(|| 5u8, "loading");
    assert_eq!(view.init_view, "loading");
    let mut state: DeferState<u32, (), ()> = DeferState {
        view_id: Id::from_raw(1),
        view: None,
        view_state: ViewState::Init(()),
        task: spawn_task(&rt, 42u32),
    };
    pause(&rt, 50);
    let mut step = state.rebuild_step();
    for _ in 0..100 {
        if step == DeferRebuild::BuildResolved {
            break;
        }
        pause(&rt, 5);
        step = state.rebuild_step();
    }
    assert_eq!(step, DeferRebuild::BuildResolved);
    assert_eq!(state.view, Some(42));
    assert!(state.is_waiting());
    state.resolve(Id::from_raw(2), ());
    assert!(!state.is_waiting());
    assert_eq!(state.view_id, Id::from_raw(2));
    assert_eq!(state.rebuild_step(), DeferRebuild::Unchanged);
    assert!(!state.on_async_wake());
    assert!(!state.is_waiting());
    assert_eq!(state.view, Some(42));
}

#[test]
fn finished_task_is_not_polled_again() {
    let rt = tokio::runtime::Runtime::new().unwrap();
    let mut task = spawn_task(&rt, 3u32);
    assert!(wait_ready(&rt, &mut task));
    assert!(!task.poll());
    assert!(!task.poll());
    assert_eq!(task.take_result(), Some(3));
    assert!(!task.poll());
    assert_eq!(task.take_result(), None);
}

#[test]
fn deferred_state_constructors() {
    let rt = tokio::runtime::Runtime::new().unwrap();
    let shown: DeferState<u32, (), u8> = DeferState::resolved(Id::from_raw(4), 8, 1, spawn_task(&rt, 0u32));
    assert!(!shown.is_waiting());
    assert_eq!(shown.view, Some(8));
    let waiting: DeferState<u32, u8, ()> = DeferState::waiting(Id::from_raw(5), 2, spawn_task(&rt, 0u32));
    assert!(waiting.is_waiting());
    assert_eq!(waiting.view, None);
    assert_eq!(waiting.view_id, Id::from_raw(5));
}

#[test]
fn deferred_event_handler_hands_out_the_output() {
    let rt = tokio::runtime::Runtime::new().unwrap();
    let handler = defer(|x: u32| x, |_: u32| ());
    assert_eq!((handler.future_fn)(3), 3);
    let mut state: DeferHandlerState<u32> = DeferHandlerState {
        task: None,
        runtime: rt.handle().clone(),
        waker: futures_task::noop_waker(),
    };
    assert!(!state.is_pending());
    assert!(matches!(state.on_async_wake(), DeferWake::Stale));
    let mut task = spawn_task(&rt, 11u32);
    assert!(wait_ready(&rt, &mut task));
    let ready = spawn_task(&rt, task.take_result().unwrap());
    pause(&rt, 50);
    match state.on_spawned(ready) {
        Some(v) => {
            assert_eq!(v, 11);
            assert!(!state.is_pending());
        }
        None => {
            assert!(state.is_pending());
            let mut outcome = state.on_async_wake();
            for _ in 0..100 {
                if let DeferWake::Completed(_) = outcome {
                    break;
                }
                pause(&rt, 5);
                outcome = state.on_async_wake();
            }
            assert!(matches!(outcome, DeferWake::Completed(11)));
            assert!(!state.is_pending());
        }
    }
}

#[test]
fn stream_state_begins_updates_and_finishes() {
    let rt = tokio::runtime::Runtime::new().unwrap();
    let handler = stream(|x: u32| x, |_: u32| ());
    assert_eq!((handler.stream_fn)(2), 2);
    let mut state: StreamEventHandlerState<u32> =
        StreamEventHandlerState::new(futures_task::noop_waker(), rt.handle().clone());
    assert!(!state.started && !state.is_streaming);
    let (tx, rx) = tokio::sync::mpsc::channel(10);
    tx.try_send(Some(1)).unwrap();
    tx.try_send(Some(2)).unwrap();
    tx.try_send(None).unwrap();
    let join = rt.spawn(async {});
    state.start(rx, join);
    assert!(state.started && state.is_streaming);
    assert!(matches!(state.poll(), Some(StreamMessage::Begin(1))));
    assert!(matches!(state.poll(), Some(StreamMessage::Update(2))));
    assert!(matches!(state.poll(), Some(StreamMessage::Finished)));
    assert!(!state.is_streaming);
    assert!(state.poll().is_none());
}

#[test]
fn stream_poll_step_on_given_values() {
    let rt = tokio::runtime::Runtime::new().unwrap();
    let mut state: StreamEventHandlerState<u32> =
        StreamEventHandlerState::new(futures_task::noop_waker(), rt.handle().clone());
    state.started = true;
    state.is_streaming = true;
    assert!(matches!(state.poll_step(Received::Item(4)), Some(StreamMessage::Begin(4))));
    assert!(matches!(state.poll_step(Received::Item(5)), Some(StreamMessage::Update(5))));
    assert!(state.is_streaming);
    assert!(state.poll_step(Received::Nothing).is_none());
    assert!(!state.is_streaming);
}

#[test]
fn unfinished_tasks_keep_the_initial_view_and_wait() {
    let rt = tokio::runtime::Runtime::new().unwrap();
    let handle = rt.spawn(std::future::pending::<u32>());
    let task = PendingTask::new(futures_task::noop_waker(), tokio::task::unconstrained(handle));
    let mut state: DeferState<u32, (), ()> = DeferState {
        view_id: Id::from_raw(1),
        view: None,
        view_state: ViewState::Init(()),
        task,
    };
    assert_eq!(state.rebuild_step(), DeferRebuild::RebuildInit);
    assert!(!state.on_async_wake());
    assert_eq!(state.view, None);

    let handle = rt.spawn(std::future::pending::<u32>());
    let pending = PendingTask::new(futures_task::noop_waker(), tokio::task::unconstrained(handle));
    let mut handler_state: DeferHandlerState<u32> = DeferHandlerState {
        task: None,
        runtime: rt.handle().clone(),
        waker: futures_task::noop_waker(),
    };
    assert!(handler_state.on_spawned(pending).is_none());
    assert!(handler_state.is_pending());
    assert!(matches!(handler_state.on_async_wake(), DeferWake::Nop));
    assert!(handler_state.is_pending());
}
