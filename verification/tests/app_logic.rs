use trui::app::{
    dispatch_events, render_pass, summarize_batch, AppTaskState, UiState, WakeAction,
};
use trui::flags::{KeyModifiers, PodFlags};
use trui::geometry::{Point, Size};
use trui::id::Id;
use trui::style::Style;
use trui::widget::events::{Event, MouseButton, MouseEventKind, RawMouseEvent};
use trui::widget::pod::{CxState, MessageBody, Pod, WidgetState};
use trui::widget::events::OnClick;
use trui::widget::text::Text;

fn mouse(kind: MouseEventKind, column: i16, row: i16) -> Event {
    Event::Mouse(RawMouseEvent { kind, column, row, modifiers: KeyModifiers::empty() })
}

#[test]
fn render_request_without_delay_renders_at_once() {
    let mut task = AppTaskState::new();
    task.pending_async.push(Id::from_raw(5));
    assert!(task.on_render_request(false));
    assert_eq!(task.ui_state, UiState::Start);
}

#[test]
fn delayed_render_waits_for_the_pending_task() {
    let mut task = AppTaskState::new();
    task.pending_async.push(Id::from_raw(5));
    assert!(!task.on_render_request(true));
    assert_eq!(task.ui_state, UiState::Delayed);
    assert!(task.has_deadline);
    let action = task.on_wake(&[Id::from_raw(1), Id::from_raw(5)], true);
    assert_eq!(action, WakeAction { send_wake_event: false, render: true });
    assert!(task.pending_async.is_empty());
    task.after_render(vec![Id::from_raw(9)]);
    assert_eq!(task.ui_state, UiState::Start);
    assert!(!task.has_deadline);
    assert_eq!(task.pending_async, vec![Id::from_raw(9)]);
}

#[test]
fn wake_while_idle_wakes_the_terminal_side_once() {
    let mut task = AppTaskState::new();
    let action = task.on_wake(&[Id::from_raw(3)], true);
    assert_eq!(action, WakeAction { send_wake_event: true, render: false });
    assert_eq!(task.ui_state, UiState::WokeUI);
    let action = task.on_wake(&[Id::from_raw(3)], true);
    assert_eq!(action, WakeAction { send_wake_event: false, render: false });
    let action = task.on_wake(&[Id::from_raw(3)], false);
    assert_eq!(action, WakeAction { send_wake_event: false, render: false });
}

#[test]
fn render_request_with_nothing_pending_renders() {
    let mut task = AppTaskState::new();
    assert!(task.on_render_request(true));
}

#[test]
fn batch_summary_finds_quit_and_last_mouse_position() {
    let events = vec![
        mouse(MouseEventKind::Moved, 1, 2),
        Event::Wake,
        mouse(MouseEventKind::Moved, 7, 8),
        Event::FocusGained,
    ];
    let s = summarize_batch(&events);
    assert!(!s.quit);
    assert_eq!(s.cursor, Some(Point::new(7, 8)));
    let events = vec![Event::Start, Event::Quit];
    let s = summarize_batch(&events);
    assert!(s.quit);
    assert_eq!(s.cursor, None);
}

#[test]
fn click_sends_a_message_to_the_view() {
    let path = vec![Id::from_raw(1), Id::from_raw(2)];
    let mut root = Pod::new(OnClick::new(Text::new("button".to_string(), Style::new()), &path));
    let mut root_state = WidgetState::new();
    let mut cx_state = CxState::new(Vec::new());
    let mut last_size = Size::zero();
    let painted = render_pass(&mut root, &mut root_state, &mut cx_state, Size::new(20, 5), &mut last_size, None);
    assert!(painted.is_some());
    assert_eq!(last_size, Size::new(20, 5));
    let events = vec![
        mouse(MouseEventKind::Down(MouseButton::Left), 1, 0),
        mouse(MouseEventKind::Up(MouseButton::Left), 1, 0),
    ];
    dispatch_events(&mut root, &mut root_state, &mut cx_state, &events);
    assert_eq!(cx_state.messages.len(), 1);
    assert_eq!(cx_state.messages[0].id_path, path);
    assert_eq!(cx_state.messages[0].body, MessageBody::Unit);
}

#[test]
fn render_pass_skips_layout_and_paint_when_nothing_changed() {
    let mut root = Pod::new(Text::new("abc".to_string(), Style::new()));
    let mut root_state = WidgetState::new();
    let mut cx_state = CxState::new(Vec::new());
    let mut last_size = Size::zero();
    assert!(render_pass(&mut root, &mut root_state, &mut cx_state, Size::new(10, 2), &mut last_size, None).is_some());
    assert_eq!(root.state.size, Size::new(3, 1));
    assert!(!root.state.flags.contains(PodFlags::request_paint()));
    // the tree-changed flag of a new pod stays set, so the next pass lays out again
    assert!(root.state.flags.contains(PodFlags::tree_changed()));
    assert!(render_pass(&mut root, &mut root_state, &mut cx_state, Size::new(10, 2), &mut last_size, None).is_some());
    root.state.flags.remove(PodFlags::tree_changed());
    assert!(render_pass(&mut root, &mut root_state, &mut cx_state, Size::new(10, 2), &mut last_size, None).is_none());
    assert!(render_pass(&mut root, &mut root_state, &mut cx_state, Size::new(11, 2), &mut last_size, None).is_some());
    assert_eq!(last_size, Size::new(11, 2));
}
