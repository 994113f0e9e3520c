use std::sync::Arc;

use trui::app::{render_frame, render_pass, AppTaskState, UiState};
use trui::flags::{KeyModifiers, PodFlags, Position};
use trui::geometry::{BoxConstraints, Point, Size};
use trui::id::Id;
use trui::style::Style;
use trui::view::use_state::WithState;
use trui::widget::events::{Event, LifeCycle, MouseButton, MouseEventKind, RawMouseEvent};
use trui::widget::pod::{CxState, DrawCommand, EventCx, LayoutCx, LifeCycleCx, PaintCx, Pod, Widget, WidgetState};
use trui::widget::margin::Margin;
use trui::widget::text::Text;

/// A widget that remembers the last mouse event it got.
struct Recorder {
    last: Option<RawMouseEvent>,
}

impl Widget for Recorder {
    fn paint(&mut self, _cx: &mut PaintCx) {}
    fn layout(&mut self, _cx: &mut LayoutCx, _bc: &BoxConstraints) -> Size {
        Size::new(3, 1)
    }
    fn lifecycle(&mut self, _cx: &mut LifeCycleCx, _event: &LifeCycle) {}
    fn event(&mut self, _cx: &mut EventCx, event: &Event) {
        if let Event::Mouse(m) = event {
            self.last = Some(*m);
        }
    }
}

fn event_cx() -> EventCx {
    EventCx { cx_state: CxState::new(Vec::new()), widget_state: WidgetState::new(), is_handled: false }
}

#[test]
fn pod_hands_mouse_events_to_its_widget_in_its_coordinates() {
    let mut pod = Pod::new(Recorder { last: None });
    let mut lcx = LayoutCx { cx_state: CxState::new(Vec::new()), widget_state: WidgetState::new() };
    pod.layout(&mut lcx, &BoxConstraints::tight(Size::new(3, 1)));
    pod.set_origin(&mut lcx, Point::new(5, 2));
    let mut cx = event_cx();
    let inside = RawMouseEvent {
        kind: MouseEventKind::Down(MouseButton::Left),
        column: 6,
        row: 2,
        modifiers: KeyModifiers::empty(),
    };
    pod.event(&mut cx, &Event::Mouse(inside));
    let got = pod.widget.last.unwrap();
    assert_eq!((got.column, got.row), (1, 0));
}

#[test]
fn pod_stops_mouse_coordinates_left_of_the_widget_at_zero() {
    let mut pod = Pod::new(Recorder { last: None });
    let mut lcx = LayoutCx { cx_state: CxState::new(Vec::new()), widget_state: WidgetState::new() };
    pod.layout(&mut lcx, &BoxConstraints::tight(Size::new(3, 1)));
    pod.set_origin(&mut lcx, Point::new(5, 2));
    // an active descendant gets mouse events wherever the mouse is
    pod.state.flags.insert(PodFlags::has_active());
    let mut cx = event_cx();
    let left_of_it = RawMouseEvent {
        kind: MouseEventKind::Drag(MouseButton::Left),
        column: 2,
        row: 0,
        modifiers: KeyModifiers::empty(),
    };
    pod.event(&mut cx, &Event::Mouse(left_of_it));
    let got = pod.widget.last.unwrap();
    assert_eq!((got.column, got.row), (0, 0));
}

#[test]
fn handled_events_do_not_reach_the_widget() {
    let mut pod = Pod::new(Recorder { last: None });
    let mut cx = event_cx();
    cx.is_handled = true;
    let ev = RawMouseEvent { kind: MouseEventKind::Moved, column: 0, row: 0, modifiers: KeyModifiers::empty() };
    pod.event(&mut cx, &Event::Mouse(ev));
    assert!(pod.widget.last.is_none());
}

#[test]
fn render_pass_paints_on_a_paint_request_without_layout() {
    let mut root = Pod::new(Text::new("abc".to_string(), Style::new()));
    let mut root_state = WidgetState::new();
    let mut cx_state = CxState::new(Vec::new());
    let mut last_size = Size::zero();
    let first = render_pass(&mut root, &mut root_state, &mut cx_state, Size::new(10, 2), &mut last_size, None).unwrap();
    root.state.flags.remove(PodFlags::tree_changed());
    assert!(render_pass(&mut root, &mut root_state, &mut cx_state, Size::new(10, 2), &mut last_size, None).is_none());
    root.state.flags.insert(PodFlags::request_paint());
    let again = render_pass(&mut root, &mut root_state, &mut cx_state, Size::new(10, 2), &mut last_size, None).unwrap();
    assert_eq!(again.len(), 1);
    assert_eq!(first.len(), 1);
    match &again[0] {
        DrawCommand::Text { x, y, text, max_width, .. } => {
            assert_eq!((*x, *y, text.as_str(), *max_width), (0, 0, "abc", 3));
        }
        other => panic!("unexpected paint instruction {:?}", other),
    }
    assert!(!root.state.flags.contains(PodFlags::request_paint()));
}

#[test]
fn deadline_renders_only_while_a_render_waits() {
    let mut task = AppTaskState::new();
    assert!(!task.on_deadline());
    task.after_render(vec![Id::from_raw(1)]);
    assert!(!task.on_render_request(true));
    assert!(task.on_deadline());
    task.after_render(Vec::new());
    assert!(!task.on_deadline());
}

#[test]
fn delayed_render_waits_for_every_pending_task() {
    let mut task = AppTaskState::new();
    let (a, b) = (Id::from_raw(1), Id::from_raw(2));
    task.after_render(vec![a, b]);
    assert!(!task.on_render_request(true));
    assert_eq!(task.ui_state, UiState::Delayed);
    let first = task.on_wake(&[Id::from_raw(0), b], true);
    assert!(!first.send_wake_event && !first.render);
    let second = task.on_wake(&[Id::from_raw(0), a], true);
    assert!(!second.send_wake_event && second.render);
}

#[test]
fn with_state_keeps_the_view() {
    let composed = WithState::<u32>::with_state(7u32, || 1u8, |x: u8| x);
    assert_eq!(*composed.view, 7);
    assert_eq!((composed.init)(), 1);
    assert_eq!((composed.view_factory)(2), 2);
    let shared: Arc<u32> = Arc::new(3);
    let composed = WithState::<u32>::with_state(shared.clone(), (), ());
    assert!(Arc::ptr_eq(&composed.view, &shared));
}

/// A widget that asks for `steps_left` more animation steps and counts the steps it got.
struct Animated {
    steps_left: u32,
    animated: u32,
}

impl Widget for Animated {
    fn paint(&mut self, _cx: &mut PaintCx) {}
    fn layout(&mut self, _cx: &mut LayoutCx, _bc: &BoxConstraints) -> Size {
        Size::new(2, 1)
    }
    fn lifecycle(&mut self, cx: &mut LifeCycleCx, event: &LifeCycle) {
        if let LifeCycle::Animate = event {
            self.animated += 1;
            if self.steps_left > 0 {
                self.steps_left -= 1;
                cx.request_animation_update();
            }
        }
    }
    fn event(&mut self, _cx: &mut EventCx, _event: &Event) {}
}

#[test]
fn render_frame_animates_while_a_widget_asks_for_it() {
    let mut root = Pod::new(Margin::new(Animated { steps_left: 1, animated: 0 }, Position::top(), 1));
    let mut root_state = WidgetState::new();
    let mut cx_state = CxState::new(Vec::new());
    let mut last_size = Size::zero();
    let first = render_frame(&mut root, &mut root_state, &mut cx_state, Size::new(10, 4), &mut last_size, None);
    assert!(first.commands.is_some());
    assert!(!first.rerender);
    assert_eq!(root.widget.content.widget.animated, 0);
    // the content asks for an animation step; the request travels up to the root
    root.widget.content.state.flags.insert(PodFlags::request_animation());
    root.state.flags.insert(PodFlags::request_animation());
    let second = render_frame(&mut root, &mut root_state, &mut cx_state, Size::new(10, 4), &mut last_size, None);
    assert_eq!(root.widget.content.widget.animated, 1);
    assert!(second.rerender);
    let third = render_frame(&mut root, &mut root_state, &mut cx_state, Size::new(10, 4), &mut last_size, None);
    assert_eq!(root.widget.content.widget.animated, 2);
    assert!(!third.rerender);
    let fourth = render_frame(&mut root, &mut root_state, &mut cx_state, Size::new(10, 4), &mut last_size, None);
    assert_eq!(root.widget.content.widget.animated, 2);
    assert!(!fourth.rerender);
}

#[test]
fn render_pass_lays_the_root_out_within_the_terminal() {
    let mut root = Pod::new(Text::new("abcdef".to_string(), Style::new()));
    let mut root_state = WidgetState::new();
    let mut cx_state = CxState::new(Vec::new());
    let mut last_size = Size::zero();
    let painted = render_pass(&mut root, &mut root_state, &mut cx_state, Size::new(4, 3), &mut last_size, None);
    assert!(painted.is_some());
    assert_eq!(root.state.size, Size::new(4, 1));
    assert_eq!(root.state.origin, Point::new(0, 0));
    assert_eq!(last_size, Size::new(4, 3));
}

#[test]
fn idle_wake_sends_one_wake_event() {
    let mut task = AppTaskState::new();
    let (a, b) = (Id::from_raw(1), Id::from_raw(2));
    task.after_render(vec![a, b]);
    let quiet = task.on_wake(&[Id::from_raw(0), a], false);
    assert!(!quiet.send_wake_event && !quiet.render);
    assert_eq!(task.ui_state, UiState::Start);
    assert_eq!(task.pending_async.len(), 2);
    let first = task.on_wake(&[Id::from_raw(0), a], true);
    assert!(first.send_wake_event && !first.render);
    assert_eq!(task.ui_state, UiState::WokeUI);
    let second = task.on_wake(&[Id::from_raw(0), b], true);
    assert!(!second.send_wake_event && !second.render);
    assert_eq!(task.ui_state, UiState::WokeUI);
    assert!(task.pending_async.is_empty());
}
