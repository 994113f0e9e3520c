use trui::flags::{Borders, ChangeFlags, Modifier, PodFlags, Position};
use trui::geometry::{Axis, BoxConstraints, Point, Rect, Size};
use trui::id::{clone_id_path, route, Cx, Id};
use trui::style::{Color, Style};
use trui::widget::events::ViewContext;

#[test]
fn style_patch_identity_and_associativity() {
    let a = Style::new().fg(Color::Red).add_modifier(Modifier::all());
    assert_eq!(a.patch(Style::new()), a);
    let b = Style::new().bg(Color::Blue);
    assert_eq!(Style::new().patch(b), b);
    let c = Style::new().fg(Color::Green);
    assert_eq!(a.patch(b).patch(c), a.patch(b.patch(c)));
    assert_eq!(a.patch(c).fg, Some(Color::Green));
    assert_eq!(a.patch(b).bg, Some(Color::Blue));
}

#[test]
fn constraints_constrain_into_range() {
    let bc = BoxConstraints::new(Size::new(2, 2), Size::new(10, 4));
    assert_eq!(bc.constrain(Size::new(20, 1)), Size::new(10, 2));
    assert_eq!(bc.constrain(Size::new(5, 3)), Size::new(5, 3));
    let shrunk = bc.shrink(Size::new(4, 3));
    assert_eq!(shrunk.min(), Size::new(0, 0));
    assert_eq!(shrunk.max(), Size::new(6, 1));
    assert_eq!(BoxConstraints::tight(Size::new(3, 3)).loosen().min(), Size::zero());
}

#[test]
fn rect_contains_its_cells_only() {
    let r = Rect::new(1, 1, 3, 2);
    assert!(r.contains(Point::new(1, 1)));
    assert!(r.contains(Point::new(3, 2)));
    assert!(!r.contains(Point::new(4, 1)));
    assert!(!r.contains(Point::new(1, 3)));
    assert!(!Rect::new(0, 0, 0, 0).contains(Point::new(0, 0)));
}

#[test]
fn view_context_translations_compose() {
    let vc = ViewContext { window_origin: Point::new(1, 2), mouse_position: Some(Point::new(10, 10)) };
    let once = vc.translate_to(Point::new(3, 4)).translate_to(Point::new(1, 1));
    let direct = vc.translate_to(Point::new(4, 5));
    assert_eq!(once, direct);
    assert_eq!(direct.window_origin, Point::new(5, 7));
    assert_eq!(direct.mouse_position, Some(Point::new(6, 5)));
}

#[test]
fn axis_packs_major_and_minor() {
    assert_eq!(Axis::Horizontal.pack_size(3, 4), Size::new(3, 4));
    assert_eq!(Axis::Vertical.pack_size(3, 4), Size::new(4, 3));
    assert_eq!(Axis::Vertical.major(Size::new(1, 9)), 9);
}

#[test]
fn flags_set_operations() {
    let f = ChangeFlags::paint().union(ChangeFlags::layout());
    assert_eq!(f.bits, 0xa);
    assert!(f.contains(ChangeFlags::paint()));
    assert_eq!(f.difference(ChangeFlags::paint()).bits, 0x2);
    assert_eq!(ChangeFlags::all().upwards().bits, 0x1b);
    assert_eq!(PodFlags::all().upwards().bits, 0x291b);
    assert_eq!(Borders::all().bits, 0xff);
    assert_eq!(Position::horizontal().bits, 0xa);
    let mut p = Position::empty();
    p.insert(Position::top());
    p.set(Position::left(), true);
    assert_eq!(p.bits, 0x9);
    p.remove(Position::top());
    assert_eq!(p, Position::left());
    assert_eq!(Position::from_bits_truncate(0xff).bits, 0xf);
}

#[test]
fn id_routing_and_paths() {
    let ids: Vec<Id> = (1..=3).map(Id::from_raw).collect();
    assert_eq!(route(&[Id::from_raw(2), Id::from_raw(9)], &ids), Some(1));
    assert_eq!(route(&[Id::from_raw(7)], &ids), None);
    assert_eq!(route(&[], &ids), None);
    assert_eq!(clone_id_path(&ids), ids);
}

#[test]
fn view_context_push_pop_and_fresh_ids() {
    let mut cx = Cx::new();
    assert!(cx.is_empty());
    let a = cx.next_id();
    let b = cx.next_id();
    assert!(b.to_raw() > a.to_raw());
    cx.push(a);
    cx.push(b);
    assert_eq!(cx.id_path(), &vec![a, b]);
    cx.pop();
    assert_eq!(cx.id_path(), &vec![a]);
    cx.pop();
    cx.pop();
    assert!(cx.is_empty());
    cx.add_pending_async(a);
    cx.add_pending_async(a);
    cx.add_pending_async(b);
    assert_eq!(cx.take_pending_async(), vec![a, b]);
    assert!(cx.take_pending_async().is_empty());
}
