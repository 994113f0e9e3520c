use trui::flags::{Borders, ChangeFlags, PodFlags, Position};
use trui::geometry::{BoxConstraints, Point, Size};
use trui::style::{BorderKind, Color, LinePart, Style, Symbol};
use trui::widget::border::Border;
use trui::flags::KeyModifiers;
use trui::widget::events::{Event, LifeCycle, MouseEventKind, RawMouseEvent, ViewContext};
use trui::widget::margin::Margin;
use trui::widget::pod::{
    CxState, DrawCommand, EventCx, LayoutCx, LifeCycleCx, PaintCx, Pod, Widget, WidgetState,
};
use trui::widget::text::{Text, WrappedText};

fn layout_cx() -> LayoutCx {
    LayoutCx { cx_state: CxState::new(Vec::new()), widget_state: WidgetState::new() }
}

fn paint_cx() -> PaintCx {
    PaintCx {
        cx_state: CxState::new(Vec::new()),
        widget_state: WidgetState::new(),
        commands: Vec::new(),
        override_style: Style::new(),
    }
}

fn symbols(commands: &[DrawCommand]) -> Vec<(i32, i32, Symbol)> {
    commands
        .iter()
        .filter_map(|c| match c {
            DrawCommand::Symbol { x, y, symbol, .. } => Some((*x, *y, *symbol)),
            _ => None,
        })
        .collect()
}

#[test]
fn text_measures_display_width_of_wide_characters() {
    let text = Text::new("日本".to_string(), Style::new());
    let bc = BoxConstraints::new(Size::zero(), Size::new(100, 100));
    assert_eq!(text.measure(&bc), Size::new(4, 1));
}

#[test]
fn text_measures_longest_line_and_line_count() {
    let text = Text::new("ab\nabcd\r\nx".to_string(), Style::new());
    let bc = BoxConstraints::new(Size::zero(), Size::new(100, 100));
    assert_eq!(text.measure(&bc), Size::new(4, 3));
    let tight = BoxConstraints::new(Size::zero(), Size::new(2, 2));
    assert_eq!(text.measure(&tight), Size::new(2, 2));
}

#[test]
fn text_set_text_reports_layout_only_when_width_changes() {
    let mut text = Text::new("abc".to_string(), Style::new());
    assert_eq!(text.set_text("xyz".to_string()).bits, 0x8);
    assert_eq!(text.set_text("xyzw".to_string()).bits, 0xa);
    assert_eq!(text.set_text("xyzw".to_string()).bits, 0);
    assert_eq!(text.set_style(Style::new().fg(Color::Red)).bits, 0x8);
    assert_eq!(text.set_style(Style::new().fg(Color::Red)).bits, 0);
}

#[test]
fn text_paints_at_window_position() {
    let mut text = Text::new("hi".to_string(), Style::new());
    let mut cx = paint_cx();
    cx.widget_state.size = Size::new(5, 1);
    cx.widget_state.origin = Point::new(2, 3);
    cx.widget_state.parent_window_origin = Point::new(1, 1);
    text.paint(&mut cx);
    assert_eq!(cx.commands.len(), 1);
    match &cx.commands[0] {
        DrawCommand::Text { x, y, text, max_width, .. } => {
            assert_eq!((*x, *y), (3, 4));
            assert_eq!(text, "hi");
            assert_eq!(*max_width, 5);
        }
        _ => panic!("expected a text command"),
    }
}

#[test]
fn wrapped_text_set_words_flags() {
    let words = vec![("a".to_string(), Style::new()), (" ".to_string(), Style::new())];
    let mut w = WrappedText::new(words.clone());
    assert!(w.words_need_layout);
    assert_eq!(w.set_words(&words).bits, 0);
    let other = vec![("b".to_string(), Style::new())];
    assert_eq!(w.set_words(&other).bits, 0xa);
    assert_eq!(w.words.len(), 1);
}

#[test]
fn margin_layout_adds_margins_and_places_content() {
    let text = Text::new("abc".to_string(), Style::new());
    let mut margin = Margin::new(text, Position::all(), 2);
    let mut cx = layout_cx();
    let bc = BoxConstraints::new(Size::zero(), Size::new(20, 20));
    let size = margin.layout(&mut cx, &bc);
    assert_eq!(size, Size::new(7, 5));
    assert_eq!(margin.content.state.origin, Point::new(2, 2));
    assert_eq!(margin.set_amount(2).bits, 0);
    assert_eq!(margin.set_amount(1).bits, 0x2);
    assert_eq!(margin.set_position(Position::left()).bits, 0x2);
    let size = margin.layout(&mut cx, &bc);
    assert_eq!(size, Size::new(4, 1));
    assert_eq!(margin.content.state.origin, Point::new(1, 0));
}

#[test]
fn border_layout_and_paint_of_some_text() {
    let text = Text::new("some text".to_string(), Style::new().fg(Color::Cyan));
    let mut border = Border::new(text, Borders::all(), Style::new(), BorderKind::Straight);
    let mut pod = Pod::new(border_clone(&mut border));
    let mut lcx = layout_cx();
    let bc = BoxConstraints::tight(Size::new(15, 5)).loosen();
    let size = pod.layout(&mut lcx, &bc);
    assert_eq!(size, Size::new(11, 3));
    let mut cx = paint_cx();
    pod.paint(&mut cx);
    let cells = symbols(&cx.commands);
    assert!(cells.contains(&(0, 0, Symbol::Line(BorderKind::Straight, LinePart::TopLeft))));
    assert!(cells.contains(&(10, 0, Symbol::Line(BorderKind::Straight, LinePart::TopRight))));
    assert!(cells.contains(&(0, 2, Symbol::Line(BorderKind::Straight, LinePart::BottomLeft))));
    assert!(cells.contains(&(10, 2, Symbol::Line(BorderKind::Straight, LinePart::BottomRight))));
    assert!(cells.contains(&(5, 0, Symbol::Line(BorderKind::Straight, LinePart::Horizontal))));
    assert!(cells.contains(&(0, 1, Symbol::Line(BorderKind::Straight, LinePart::Vertical))));
    let texts: Vec<(i32, i32, String)> = cx
        .commands
        .iter()
        .filter_map(|c| match c {
            DrawCommand::Text { x, y, text, .. } => Some((*x, *y, text.clone())),
            _ => None,
        })
        .collect();
    assert_eq!(texts, vec![(1, 1, "some text".to_string())]);
    // every border cell lies inside the widget
    for (x, y, _) in cells {
        assert!(0 <= x && x < 11 && 0 <= y && y < 3);
    }
}

fn border_clone(b: &mut Border<Text>) -> Border<Text> {
    Border::new(
        Text::new(b.content.widget.text.clone(), b.content.widget.style),
        b.borders,
        b.style,
        b.kind,
    )
}

#[test]
fn border_on_a_single_cell_is_a_dot() {
    let text = Text::new("".to_string(), Style::new());
    let border = Border::new(text, Borders::all(), Style::new(), BorderKind::Rounded);
    let mut cx = paint_cx();
    cx.widget_state.size = Size::new(1, 1);
    border.render_border(&mut cx);
    assert_eq!(symbols(&cx.commands), vec![(0, 0, Symbol::Dot)]);
}

#[test]
fn border_setters_report_changes() {
    let text = Text::new("x".to_string(), Style::new());
    let mut border = Border::new(text, Borders::all(), Style::new(), BorderKind::Straight);
    assert_eq!(border.set_borders(Borders::all()).bits, 0);
    assert_eq!(border.set_borders(Borders::none()).bits, 0xa);
    assert_eq!(border.set_kind(BorderKind::Rounded).bits, 0xa);
    assert_eq!(border.set_style(Style::new().bg(Color::Blue)).bits, 0x8);
}

#[test]
fn pod_mark_takes_over_upward_flags() {
    let mut pod = Pod::new(Text::new("x".to_string(), Style::new()));
    let before = pod.state.flags.bits;
    let up = pod.mark(ChangeFlags::paint());
    assert_eq!(up.bits, 0x8);
    assert_eq!(pod.state.flags.bits, before | 0x8);
    assert_eq!(ChangeFlags::tree_structure().bits, 0x10);
}

#[test]
fn pod_tracks_hot_state_on_mouse_moves() {
    let mut pod = Pod::new(Text::new("hello".to_string(), Style::new()));
    let mut lcx = layout_cx();
    pod.layout(&mut lcx, &BoxConstraints::tight(Size::new(5, 1)));
    pod.set_origin(&mut lcx, Point::new(1, 1));
    let mut cx = EventCx {
        cx_state: CxState::new(Vec::new()),
        widget_state: WidgetState::new(),
        is_handled: false,
    };
    let inside = RawMouseEvent {
        kind: MouseEventKind::Moved,
        column: 2,
        row: 1,
        modifiers: KeyModifiers::empty(),
    };
    pod.event(&mut cx, &Event::Mouse(inside));
    assert!(pod.state.flags.contains(PodFlags::is_hot()));
    let outside = RawMouseEvent { column: 9, ..inside };
    pod.event(&mut cx, &Event::Mouse(outside));
    assert!(!pod.state.flags.contains(PodFlags::is_hot()));
}

#[test]
fn pod_lifecycle_view_context_sets_window_origin() {
    let mut pod = Pod::new(Text::new("hello".to_string(), Style::new()));
    let mut lcx = layout_cx();
    pod.layout(&mut lcx, &BoxConstraints::tight(Size::new(5, 1)));
    let mut cx = LifeCycleCx { cx_state: CxState::new(Vec::new()), widget_state: WidgetState::new() };
    let vc = ViewContext { window_origin: Point::new(3, 4), mouse_position: Some(Point::new(0, 0)) };
    pod.lifecycle(&mut cx, &LifeCycle::ViewContextChanged(vc));
    assert_eq!(pod.state.parent_window_origin, Point::new(3, 4));
    assert!(pod.state.flags.contains(PodFlags::is_hot()));
}
