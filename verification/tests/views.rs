use trui::flags::{Borders, CatchMouseButton, Position};
use trui::id::Id;
use trui::style::{BorderKind, Color, Style};
use trui::view::border::Border;
use trui::view::common::{BorderStyle, Styleable};
use trui::view::events::{update_style, OnMouse, StyleOnHover};
use trui::view::margin::{Margin, MarginStyle};
use trui::view::routing::{is_for_child, rest_of_path, route_event_view, route_pair, Route};
use trui::view::text::{Text, ToWrappedText, WrappedText};
use trui::view::use_state::{use_state, UseState};
use trui::widget::border::Border as BorderWidget;
use trui::widget::margin::Margin as MarginWidget;
use trui::widget::text::Text as TextWidget;

fn ids(raw: &[u64]) -> Vec<Id> {
    raw.iter().map(|r| Id::from_raw(*r)).collect()
}

#[test]
fn margin_style_conversions() {
    let a: MarginStyle = 3u16.into();
    assert_eq!(a, MarginStyle { amount: 3, position: Position::all() });
    let b: MarginStyle = (2u16, Position::left()).into();
    assert_eq!(b, MarginStyle { amount: 2, position: Position::left() });
    let c: MarginStyle = (Position::top(), 4u16).into();
    assert_eq!(c, MarginStyle { amount: 4, position: Position::top() });
    assert_eq!(MarginStyle::default(), MarginStyle { amount: 0, position: Position::empty() });
}

#[test]
fn border_style_conversions() {
    let red = Style::new().fg(Color::Red);
    let all: BorderStyle = ().into();
    assert_eq!(all, BorderStyle { borders: Borders::all(), kind: BorderKind::Straight, style: Style::new() });
    let kind: BorderStyle = BorderKind::Rounded.into();
    assert_eq!(kind.borders, Borders::all());
    assert_eq!(kind.kind, BorderKind::Rounded);
    let styled: BorderStyle = red.into();
    assert_eq!(styled.style, red);
    assert_eq!(styled.borders, Borders::all());
    let only: BorderStyle = Borders::left().into();
    assert_eq!(only.borders, Borders::left());
    let pair: BorderStyle = (Borders::vertical(), red).into();
    assert_eq!(pair, BorderStyle { borders: Borders::vertical(), kind: BorderKind::Straight, style: red });
    let triple: BorderStyle = (BorderKind::DoubleStraight, red, Borders::top()).into();
    assert_eq!(triple, BorderStyle { borders: Borders::top(), kind: BorderKind::DoubleStraight, style: red });
    assert_eq!(BorderStyle::default().borders, Borders::none());
}

#[test]
fn margin_view_updates_its_widget() {
    let view = Margin::new((), (1u16, Position::top()).into());
    let mut element = MarginWidget::new(TextWidget::new("x".to_string(), Style::new()), Position::top(), 1);
    assert_eq!(view.update_element(&mut element).bits, 0);
    let view = Margin::new((), 5u16.into());
    assert_eq!(view.update_element(&mut element).bits, 0x2);
    assert_eq!(element.amount, 5);
    assert_eq!(element.position, Position::all());
}

#[test]
fn border_view_updates_its_widget() {
    let view = Border::new((), BorderKind::Rounded.into());
    let mut element = BorderWidget::new(
        TextWidget::new("x".to_string(), Style::new()),
        Borders::all(),
        Style::new(),
        BorderKind::Straight,
    );
    assert_eq!(view.update_element(&mut element).bits, 0xa);
    assert_eq!(element.kind, BorderKind::Rounded);
    assert_eq!(view.update_element(&mut element).bits, 0);
    let view = view.fg(Color::Green);
    assert_eq!(view.update_element(&mut element).bits, 0x8);
    assert_eq!(element.style.fg, Some(Color::Green));
}

#[test]
fn border_modifier_leaves_the_style_unchanged() {
    let view = Border::new((), ().into()).bg(Color::Blue);
    let before = view.current_style();
    let after = view.modifier(trui::flags::Modifier::all()).current_style();
    assert_eq!(before, after);
}

#[test]
fn text_view_styles() {
    let t = "some text".fg(Color::Cyan);
    assert_eq!(t.text, "some text");
    assert_eq!(t.current_style(), Style::new().fg(Color::Cyan));
    let t = t.bg(Color::Black).style(Style::new());
    assert_eq!(t.current_style(), Style::new());
    let s = String::from("abc").modifier(trui::flags::Modifier::all());
    assert_eq!(s.style, Style::new().add_modifier(trui::flags::Modifier::all()));
}

#[test]
fn text_view_updates_its_widget() {
    let view = Text::from_str("hello").fg(Color::Red);
    let mut element = TextWidget::new("hello".to_string(), Style::new());
    assert_eq!(view.update_element(&mut element).bits, 0x8);
    assert_eq!(view.update_element(&mut element).bits, 0);
    let view = Text::from_str("hello!");
    assert_eq!(view.update_element(&mut element).bits, 0xa);
    assert_eq!(element.text, "hello!");
}

#[test]
fn wrapped_text_splits_on_word_bounds() {
    let w = Text::from_str("The quick (\"brown\")  fox").wrapped();
    let words: Vec<&str> = w.words.iter().map(|(s, _)| s.as_str()).collect();
    assert_eq!(words, vec!["The", " ", "quick", " ", "(", "\"", "brown", "\"", ")", "  ", "fox"]);
    assert_eq!(words.concat(), "The quick (\"brown\")  fox");
}

#[test]
fn wrapped_pair_keeps_each_style() {
    let a = Text::from_str("a b").fg(Color::Red);
    let b = Text::from_str("c").fg(Color::Blue);
    let w: WrappedText = (a, b).wrapped();
    let words: Vec<(String, Option<Color>)> =
        w.words.iter().map(|(s, st)| (s.clone(), st.fg)).collect();
    assert_eq!(
        words,
        vec![
            ("a".to_string(), Some(Color::Red)),
            (" ".to_string(), Some(Color::Red)),
            ("b".to_string(), Some(Color::Red)),
            ("c".to_string(), Some(Color::Blue)),
        ]
    );
}

#[test]
fn routing_of_event_views() {
    let child = Id::from_raw(1);
    let handler = Id::from_raw(2);
    assert_eq!(route_event_view(&ids(&[1, 7]), child, handler), Route::Child);
    assert_eq!(route_event_view(&ids(&[2]), child, handler), Route::Handler);
    assert_eq!(route_event_view(&[], child, handler), Route::Direct);
    assert_eq!(route_event_view(&ids(&[3]), child, handler), Route::Stale);
    assert_eq!(route_pair(&ids(&[2, 1]), child, handler), Some(false));
    assert_eq!(route_pair(&ids(&[1]), child, handler), Some(true));
    assert_eq!(route_pair(&[], child, handler), None);
    assert!(is_for_child(&ids(&[1, 2]), child));
    assert!(!is_for_child(&[], child));
    assert_eq!(rest_of_path(&ids(&[1, 2, 3])), &ids(&[2, 3])[..]);
}

#[test]
fn on_mouse_catch_event_replaces_buttons() {
    let view = OnMouse { view: (), catch_event: CatchMouseButton::empty(), event_handler: () };
    let view = view.catch_event(CatchMouseButton::all());
    assert_eq!(view.catch_event, CatchMouseButton::all());
    let view = view.catch_event(CatchMouseButton::empty());
    assert!(view.catch_event.is_empty());
}

#[test]
fn style_update_reports_repaint() {
    let mut current = Style::new();
    assert_eq!(update_style(&mut current, Style::new()).bits, 0);
    assert_eq!(update_style(&mut current, Style::new().fg(Color::Red)).bits, 0x8);
    assert_eq!(current, Style::new().fg(Color::Red));
    let hover = StyleOnHover { view: Text::from_str("x"), style: Style::new().bg(Color::Red) };
    let hover = hover.fg(Color::Green);
    assert_eq!(hover.style, Style::new().bg(Color::Red));
    assert_eq!(hover.current_style(), Style::new().fg(Color::Green));
}

#[test]
fn use_state_keeps_its_functions() {
    let v: UseState<fn() -> u32, fn(&mut u32) -> u32> = use_state(|| 42, |s: &mut u32| *s + 1);
    let mut state = (v.f_init)();
    assert_eq!(state, 42);
    assert_eq!((v.f)(&mut state), 43);
}
