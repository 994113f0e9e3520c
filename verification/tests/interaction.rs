use trui::flags::{CatchMouseButton, KeyModifiers, PodFlags};
use trui::geometry::{Axis, BoxConstraints, Point, Size};
use trui::id::Id;
use trui::style::{Color, Style};
use trui::widget::events::{
    Event, MouseButton, MouseEventKind, OnHover, OnHoverLost, OnMouse, RawMouseEvent,
    StyleOnPressed,
};
use trui::widget::linear_layout::LinearLayout;
use trui::widget::pod::{CxState, DrawCommand, EventCx, LayoutCx, MessageBody, PaintCx, Pod, WidgetState};
use trui::widget::scroll_view::ScrollView;
use trui::widget::text::Text;

fn text(s: &str) -> Text {
    Text::new(s.to_string(), Style::new())
}

fn layout_cx() -> LayoutCx {
    LayoutCx { cx_state: CxState::new(Vec::new()), widget_state: WidgetState::new() }
}

fn event_cx() -> EventCx {
    EventCx { cx_state: CxState::new(Vec::new()), widget_state: WidgetState::new(), is_handled: false }
}

fn mouse(kind: MouseEventKind, column: i16, row: i16) -> Event {
    Event::Mouse(RawMouseEvent { kind, column, row, modifiers: KeyModifiers::empty() })
}

fn laid_out<W: trui::widget::pod::Widget>(widget: W, max: Size) -> Pod<W> {
    let mut pod = Pod::new(widget);
    let mut cx = layout_cx();
    pod.layout(&mut cx, &BoxConstraints::new(Size::zero(), max));
    pod.set_origin(&mut cx, Point::origin());
    pod
}

#[test]
fn on_mouse_catches_presses_and_reports_mouse_events() {
    let path = vec![Id::from_raw(4)];
    let mut pod = laid_out(OnMouse::new(text("abc"), &path, CatchMouseButton::left()), Size::new(10, 10));
    let mut cx = event_cx();
    pod.event(&mut cx, &mouse(MouseEventKind::Down(MouseButton::Left), 1, 0));
    assert!(pod.state.flags.contains(PodFlags::is_active()));
    pod.event(&mut cx, &mouse(MouseEventKind::Up(MouseButton::Left), 2, 0));
    assert!(!pod.state.flags.contains(PodFlags::is_active()));
    let bodies: Vec<MessageBody> = cx.cx_state.messages.iter().map(|m| m.body).collect();
    assert_eq!(bodies.len(), 2);
    assert_eq!(cx.cx_state.messages[0].id_path, path);
    match (bodies[0], bodies[1]) {
        (MessageBody::Mouse(down), MessageBody::Mouse(up)) => {
            assert!(down.over_element && down.is_active);
            assert!(up.over_element && !up.is_active);
            assert_eq!((up.column, up.row), (2, 0));
        }
        _ => panic!("expected two mouse messages"),
    }
}

#[test]
fn release_outside_a_root_widget_does_not_reach_it() {
    // the pod only remembers that its widget is active from the next event it passes on
    let path = vec![Id::from_raw(4)];
    let mut pod = laid_out(OnMouse::new(text("abc"), &path, CatchMouseButton::left()), Size::new(10, 10));
    let mut cx = event_cx();
    pod.event(&mut cx, &mouse(MouseEventKind::Down(MouseButton::Left), 1, 0));
    pod.event(&mut cx, &mouse(MouseEventKind::Up(MouseButton::Left), 5, 5));
    assert!(pod.state.flags.contains(PodFlags::is_active()));
    assert_eq!(cx.cx_state.messages.len(), 1);
}

#[test]
fn on_mouse_without_caught_button_stays_inactive() {
    let path = vec![Id::from_raw(4)];
    let mut pod = laid_out(OnMouse::new(text("abc"), &path, CatchMouseButton::left()), Size::new(10, 10));
    let mut cx = event_cx();
    pod.event(&mut cx, &mouse(MouseEventKind::Down(MouseButton::Right), 0, 0));
    assert!(!pod.state.flags.contains(PodFlags::is_active()));
    assert_eq!(cx.cx_state.messages.len(), 1);
    pod.event(&mut cx, &mouse(MouseEventKind::Moved, 8, 8));
    assert_eq!(cx.cx_state.messages.len(), 1);
}

#[test]
fn hover_is_reported_once_per_entry() {
    let path = vec![Id::from_raw(2)];
    let mut pod = laid_out(OnHover::new(text("abc"), &path), Size::new(10, 10));
    let mut cx = event_cx();
    pod.event(&mut cx, &mouse(MouseEventKind::Moved, 0, 0));
    pod.event(&mut cx, &mouse(MouseEventKind::Moved, 1, 0));
    assert_eq!(cx.cx_state.messages.len(), 1);
    pod.event(&mut cx, &mouse(MouseEventKind::Moved, 9, 9));
    pod.event(&mut cx, &mouse(MouseEventKind::Moved, 2, 0));
    assert_eq!(cx.cx_state.messages.len(), 2);
    assert_eq!(cx.cx_state.messages[1].body, MessageBody::Unit);
}

#[test]
fn hover_lost_is_reported_when_leaving() {
    let path = vec![Id::from_raw(2)];
    let mut pod = laid_out(OnHoverLost::new(text("abc"), &path), Size::new(10, 10));
    let mut cx = event_cx();
    pod.event(&mut cx, &mouse(MouseEventKind::Moved, 0, 0));
    assert_eq!(cx.cx_state.messages.len(), 0);
    pod.event(&mut cx, &mouse(MouseEventKind::Moved, 7, 7));
    assert_eq!(cx.cx_state.messages.len(), 1);
}

#[test]
fn scroll_view_scrolls_within_bounds() {
    let mut pod = laid_out(ScrollView::new(text("1\n2\n3\n4\n5")), Size::new(10, 2));
    assert_eq!(pod.state.size, Size::new(1, 2));
    let mut cx = event_cx();
    pod.event(&mut cx, &mouse(MouseEventKind::ScrollDown, 0, 0));
    assert_eq!(pod.widget.offset, 1);
    assert!(cx.is_handled);
    for _ in 0..5 {
        let mut cx = event_cx();
        pod.event(&mut cx, &mouse(MouseEventKind::ScrollDown, 0, 0));
    }
    assert_eq!(pod.widget.offset, 3);
    let mut cx = event_cx();
    pod.event(&mut cx, &mouse(MouseEventKind::ScrollUp, 0, 1));
    assert_eq!(pod.widget.offset, 2);
    let mut paint = PaintCx {
        cx_state: CxState::new(Vec::new()),
        widget_state: WidgetState::new(),
        commands: Vec::new(),
        override_style: Style::new(),
    };
    pod.paint(&mut paint);
    for command in &paint.commands {
        if let DrawCommand::Text { y, .. } = command {
            assert!(*y >= 0 && *y < 2);
        }
    }
}

#[test]
fn linear_layout_places_children_one_after_another() {
    let children = vec![Pod::new(text("ab")), Pod::new(text("abcd")), Pod::new(text("x"))];
    let mut pod = laid_out(LinearLayout::new(children, 0, Axis::Vertical), Size::new(20, 20));
    assert_eq!(pod.state.size, Size::new(4, 3));
    let origins: Vec<Point> = pod.widget.children.iter().map(|c| c.state.origin).collect();
    assert_eq!(origins, vec![Point::new(0, 0), Point::new(0, 1), Point::new(0, 2)]);
    let children = vec![Pod::new(text("ab")), Pod::new(text("abcd"))];
    let pod = laid_out(LinearLayout::new(children, 1, Axis::Horizontal), Size::new(20, 20));
    let origins: Vec<Point> = pod.widget.children.iter().map(|c| c.state.origin).collect();
    assert_eq!(origins, vec![Point::new(0, 0), Point::new(3, 0)]);
    assert_eq!(pod.state.size, Size::new(7, 1));
}

#[test]
fn pressed_style_applies_while_active() {
    let mut pod = laid_out(StyleOnPressed::new(text("ok"), Style::new().fg(Color::Blue)), Size::new(5, 1));
    let mut cx = event_cx();
    pod.event(&mut cx, &mouse(MouseEventKind::Down(MouseButton::Left), 0, 0));
    let mut paint = PaintCx {
        cx_state: CxState::new(Vec::new()),
        widget_state: WidgetState::new(),
        commands: Vec::new(),
        override_style: Style::new(),
    };
    paint.widget_state = pod.state;
    assert_eq!(pod.widget.paint_style(&paint).fg, Some(Color::Blue));
    pod.event(&mut cx, &mouse(MouseEventKind::Up(MouseButton::Left), 0, 0));
    paint.widget_state = pod.state;
    assert_eq!(pod.widget.paint_style(&paint), Style::new());
}
