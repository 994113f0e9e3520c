//! The core of the widget tree: the state that a [`Pod`] keeps about its widget, the
//! contexts handed to widgets, the [`Widget`] protocol, and the dispatch of events,
//! lifecycle notifications, layout and paint through pods.
use vstd::prelude::*;

use crate::flags::{ChangeFlags, PodFlags};
use crate::geometry::{BoxConstraints, Point, Rect, Size};
use crate::id::Id;
use crate::style::{Style, Symbol};
use crate::widget::events::{Event, LifeCycle, MouseEvent, MouseEventKind, RawMouseEvent, ViewContext};

verus! {

/// What a message carries to its view.
#[derive(Clone, Copy, Debug, PartialEq, Eq, Structural)]
pub enum MessageBody {
    /// A plain notification (e.g. a click).
    Unit,
    /// A mouse event.
    Mouse(MouseEvent),
    /// An asynchronous task that the view waits for made progress.
    AsyncWake,
}

/// A message from a widget to the view with the given id path.
#[derive(Debug)]
pub struct Message {
    pub id_path: Vec<Id>,
    pub body: MessageBody,
}

impl Message {
    /// The message `body` for the view at `id_path`.
    pub fn new(id_path: Vec<Id>, body: MessageBody) -> (r: Message)
        ensures
            r.id_path@ == id_path@,
            r.body == body,
    {
        Message { id_path, body }
    }
}

/// A paint instruction for a terminal cell or a run of cells (in window coordinates).
#[derive(Debug)]
pub enum DrawCommand {
    /// Sets the symbol and the style of the cell at `(x, y)`.
    Symbol { x: i32, y: i32, symbol: Symbol, style: Style },
    /// Writes `text` starting at `(x, y)`, at most `max_width` columns wide.
    Text { x: i32, y: i32, text: String, max_width: usize, style: Style },
}

/// State shared by all contexts of one pass: the messages that widgets send.
#[derive(Debug)]
pub struct CxState {
    pub messages: Vec<Message>,
}

impl CxState {
    /// The shared state collecting messages into `messages`.
    pub fn new(messages: Vec<Message>) -> (r: CxState)
        ensures
            r.messages@ == messages@,
    {
        CxState { messages }
    }
}

/// The state that a pod keeps about its widget.
#[derive(Clone, Copy, Debug, PartialEq, Eq, Structural)]
pub struct WidgetState {
    pub flags: PodFlags,
    pub size: Size,
    /// The origin of the widget in the parent's coordinate space.
    pub origin: Point,
    /// The origin of the parent in the window coordinate space.
    pub parent_window_origin: Point,
}

/// The state of a freshly created pod.
pub open spec fn initial_widget_state() -> WidgetState {
    WidgetState {
        flags: PodFlags { bits: 0x1b },
        size: Size { width: 0, height: 0 },
        origin: Point { x: 0, y: 0 },
        parent_window_origin: Point { x: 0, y: 0 },
    }
}

/// Whether the flags mark the widget as hot (under the mouse).
pub open spec fn hot_bit(f: PodFlags) -> bool {
    f.bits & 0x200 != 0
}

/// Whether the flags mark the widget as active.
pub open spec fn active_bit(f: PodFlags) -> bool {
    f.bits & 0x400 != 0
}

/// Two widget states agree on size and position.
pub open spec fn same_geometry(a: WidgetState, b: WidgetState) -> bool {
    &&& a.size == b.size
    &&& a.origin == b.origin
    &&& a.parent_window_origin == b.parent_window_origin
}

/// Two widget states agree on size, position and hotness; this is what every widget
/// method keeps of the state in its context.
pub open spec fn keeps_state(a: WidgetState, b: WidgetState) -> bool {
    &&& same_geometry(a, b)
    &&& a.flags.bits & 0x200 == b.flags.bits & 0x200
}

/// The widget's rectangle in its parent's coordinates.
pub open spec fn local_rect(s: WidgetState) -> Rect {
    Rect { x: s.origin.x, y: s.origin.y, width: s.size.width, height: s.size.height }
}

/// Whether the mouse at `pos` (in the parent's coordinates) is over the widget.
pub open spec fn hot_at(s: WidgetState, pos: Option<Point>) -> bool {
    match pos {
        Some(p) => local_rect(s).spec_contains(p),
        None => false,
    }
}

/// The flags after the parent took over the upward flags of a child.
pub open spec fn merged(parent: PodFlags, child: PodFlags) -> PodFlags {
    PodFlags { bits: parent.bits | (child.bits & 0x291b) }
}


/// Bit facts about the pod flags that the dispatch relies on: testing, setting and
/// clearing one flag, and that doing so to another flag keeps the hot flag.
pub proof fn lemma_flag_bits(b: u32)
    by (bit_vector)
    ensures
        (b & 0x2 == 0x2) == (b & 0x2 != 0),
        (b & 0x8 == 0x8) == (b & 0x8 != 0),
        (b & 0x10 == 0x10) == (b & 0x10 != 0),
        (b & 0x100 == 0x100) == (b & 0x100 != 0),
        (b & 0x200 == 0x200) == (b & 0x200 != 0),
        (b & 0x400 == 0x400) == (b & 0x400 != 0),
        (b & 0x800 == 0x800) == (b & 0x800 != 0),
        (b & 0x1000 == 0x1000) == (b & 0x1000 != 0),
        (b & !0x2u32) & 0x2 == 0,
        (b & !0x8u32) & 0x8 == 0,
        (b & !0x10u32) & 0x200 == b & 0x200,
        (b & !0x100u32) & 0x200 == b & 0x200,
        (b & !0x2u32) & 0x200 == b & 0x200,
        (b & !0x8u32) & 0x200 == b & 0x200,
        (b & !0x800u32) & 0x200 == b & 0x200,
        (b | 0x800u32) & 0x200 == b & 0x200,
        (b | 0x100u32) & 0x200 == b & 0x200,
        (b | 0x1000u32) & 0x200 == b & 0x200,
        (b | 0xau32) & 0x200 == b & 0x200,
        (b | 0x1000u32) & 0x1000 != 0,
        (b | 0x100u32) & 0x100 != 0,
        (b & !0x2u32) & 0x1000 == b & 0x1000,
        (b & !0x2u32) & 0x100 == b & 0x100,
        (b | 0x1000u32) & 0x100 == b & 0x100,
        (b | 0x200u32) & 0x200 != 0,
        (b & !0x200u32) & 0x200 == 0,
        b & 0x200 != 0 ==> (b | 0x200u32) == b,
        b & 0x200 == 0 ==> (b & !0x200u32) == b,
        (b & !0x600u32) & 0x200 == 0,
        (b | 0x100u32) | 0x8u32 == b | 0x108u32,
        (b | 0x400u32) & 0x200 == b & 0x200,
        (b & !0x400u32) & 0x200 == b & 0x200,
        (b | 0x400u32) & 0x400 != 0,
        (b & !0x400u32) & 0x400 == 0,
        (b | 0x8u32) & 0x200 == b & 0x200,
        (b | 0x8u32) & 0x400 == b & 0x400,
        (b | 0x100u32) & 0x400 == b & 0x400,
        (b | 0x108u32) & 0x200 == b & 0x200,
        (b | 0x8u32) & 0x8 != 0,
        (b | 0x400u32) & 0x8 == b & 0x8,
        (b & !0x400u32) & 0x8 == b & 0x8,
        (b | 0x108u32) & 0x400 == b & 0x400,
        (b & !0x100u32) & 0x8 == b & 0x8,
        (b & !0x10u32) & 0x8 == b & 0x8,
        (b | 0x200u32) & 0x8 == b & 0x8,
        (b & !0x200u32) & 0x8 == b & 0x8,
        (b & 0x2000 == 0x2000) == (b & 0x2000 != 0),
        (b & !0x2000u32) & 0x8 == b & 0x8,
        (b & !0x2000u32) & 0x200 == b & 0x200,
        (b & !0x2000u32) & 0x2000 == 0,
        (b | 0x2000u32) & 0x200 == b & 0x200,
        (b | 0x2000u32) & 0x8 == b & 0x8,
        (b | 0x2000u32) & 0x2000 != 0,
{
}

/// Bit facts about merging the upward flags of a child: hotness and activity of the
/// parent stay as they are.
pub proof fn lemma_merge_bits(a: u32, c: u32)
    by (bit_vector)
    ensures
        (a | (c & 0x291b)) & 0x200 == a & 0x200,
        (a | (c & 0x291b)) & 0x400 == a & 0x400,
        a & 0x8 != 0 ==> (a | (c & 0x291b)) & 0x8 != 0,
{
}

/// The parent's state after dispatching to a child: same geometry, same hotness, same
/// activity.
pub open spec fn parent_keeps(a: WidgetState, b: WidgetState) -> bool {
    &&& same_geometry(a, b)
    &&& a.flags.bits & 0x200 == b.flags.bits & 0x200
    &&& a.flags.bits & 0x400 == b.flags.bits & 0x400
}

/// `new` is `old` with one more message at the end: for the view at `path`, carrying
/// `body`.
pub open spec fn pushed(old: Seq<Message>, new: Seq<Message>, path: Seq<Id>, body: MessageBody) -> bool {
    &&& new.len() == old.len() + 1
    &&& new.subrange(0, old.len() as int) =~= old
    &&& new.last().id_path@ == path
    &&& new.last().body == body
}

impl WidgetState {
    /// The state of a freshly created pod: every request flag set, empty size, at the
    /// origin.
    pub fn new() -> (r: WidgetState)
        ensures
            r == initial_widget_state(),
    {
        WidgetState {
            flags: PodFlags::init_flags(),
            size: Size::zero(),
            origin: Point::origin(),
            parent_window_origin: Point::origin(),
        }
    }

    /// Sets the flags `flags`.
    pub fn request(&mut self, flags: PodFlags)
        ensures
            final(self).flags.bits == old(self).flags.bits | flags.bits,
            same_geometry(*old(self), *final(self)),
    {
        self.flags.insert(flags);
    }

    /// Takes over the upward flags of `child`.
    pub fn merge_up(&mut self, child: &WidgetState)
        ensures
            final(self).flags == merged(old(self).flags, child.flags),
            same_geometry(*old(self), *final(self)),
    {
        self.flags.insert(child.flags.upwards());
    }

    /// The origin of the widget in window coordinates.
    pub fn window_origin(&self) -> (r: Point)
        ensures
            r == self.parent_window_origin.spec_translate(self.origin),
    {
        self.parent_window_origin.translate(self.origin)
    }

    /// The widget's rectangle in window coordinates.
    pub fn rect(&self) -> (r: Rect)
        ensures
            r == (Rect {
                x: self.parent_window_origin.spec_translate(self.origin).x,
                y: self.parent_window_origin.spec_translate(self.origin).y,
                width: self.size.width,
                height: self.size.height,
            }),
    {
        let origin = self.window_origin();
        Rect::new(origin.x, origin.y, self.size.width, self.size.height)
    }
}

/// The context of event handling.
pub struct EventCx {
    pub cx_state: CxState,
    pub widget_state: WidgetState,
    pub is_handled: bool,
}

/// The context of a lifecycle notification.
pub struct LifeCycleCx {
    pub cx_state: CxState,
    pub widget_state: WidgetState,
}

/// The context of a layout pass.
pub struct LayoutCx {
    pub cx_state: CxState,
    pub widget_state: WidgetState,
}

/// The context of a paint pass: paint instructions are collected in `commands`.
pub struct PaintCx {
    pub cx_state: CxState,
    pub widget_state: WidgetState,
    pub commands: Vec<DrawCommand>,
    /// The style that the outermost styled widget imposes on the widgets inside it.
    pub override_style: Style,
}

impl EventCx {
    /// Whether the widget is hot (under the mouse).
    pub fn is_hot(&self) -> (r: bool)
        ensures
            r == hot_bit(self.widget_state.flags),
    {
        proof {
            lemma_flag_bits(self.widget_state.flags.bits);
        }
        self.widget_state.flags.contains(PodFlags::is_hot())
    }

    /// Whether the widget is active.
    pub fn is_active(&self) -> (r: bool)
        ensures
            r == active_bit(self.widget_state.flags),
    {
        proof {
            lemma_flag_bits(self.widget_state.flags.bits);
        }
        self.widget_state.flags.contains(PodFlags::is_active())
    }

    /// Whether the widget or a descendant is active.
    pub fn has_active(&self) -> (r: bool)
        ensures
            r == (self.widget_state.flags.bits & 0x800 != 0),
    {
        proof {
            lemma_flag_bits(self.widget_state.flags.bits);
        }
        self.widget_state.flags.contains(PodFlags::has_active())
    }

    /// The widget's rectangle in window coordinates.
    pub fn rect(&self) -> (r: Rect)
        ensures
            r.width == self.widget_state.size.width,
            r.height == self.widget_state.size.height,
    {
        self.widget_state.rect()
    }

    /// The widget's size.
    pub fn size(&self) -> (r: Size)
        ensures
            r == self.widget_state.size,
    {
        self.widget_state.size
    }

    /// Requests a paint pass for the widget.
    pub fn request_paint(&mut self)
        ensures
            final(self).widget_state.flags.bits == old(self).widget_state.flags.bits | 0x8,
            same_geometry(old(self).widget_state, final(self).widget_state),
            final(self).cx_state == old(self).cx_state,
            final(self).is_handled == old(self).is_handled,
    {
        self.widget_state.flags.insert(PodFlags::request_paint());
    }

    /// Notes that the widget's view context changed.
    pub fn view_context_changed(&mut self)
        ensures
            final(self).widget_state.flags.bits == old(self).widget_state.flags.bits | 0x100,
            same_geometry(old(self).widget_state, final(self).widget_state),
            final(self).cx_state == old(self).cx_state,
            final(self).is_handled == old(self).is_handled,
    {
        self.widget_state.flags.insert(PodFlags::view_context_changed());
    }

    /// Sends `message` to the view tree.
    pub fn add_message(&mut self, message: Message)
        ensures
            final(self).cx_state.messages@ == old(self).cx_state.messages@.push(message),
            final(self).widget_state == old(self).widget_state,
            final(self).is_handled == old(self).is_handled,
    {
        self.cx_state.messages.push(message);
    }

    /// Sets or clears the active state of the widget.
    pub fn set_active(&mut self, is_active: bool)
        ensures
            final(self).widget_state.flags.bits == (if is_active {
                old(self).widget_state.flags.bits | 0x400
            } else {
                old(self).widget_state.flags.bits & !0x400u32
            }),
            same_geometry(old(self).widget_state, final(self).widget_state),
            final(self).cx_state == old(self).cx_state,
            final(self).is_handled == old(self).is_handled,
    {
        self.widget_state.flags.set(PodFlags::is_active(), is_active);
    }

    /// Marks the event as handled (stops its propagation to other widgets) or not.
    pub fn set_handled(&mut self, is_handled: bool)
        ensures
            final(self).is_handled == is_handled,
            final(self).widget_state == old(self).widget_state,
            final(self).cx_state == old(self).cx_state,
    {
        self.is_handled = is_handled;
    }

    /// Whether some widget handled the event.
    pub fn is_handled(&self) -> (r: bool)
        ensures
            r == self.is_handled,
    {
        self.is_handled
    }
}

impl LifeCycleCx {
    /// Whether the widget is hot (under the mouse).
    pub fn is_hot(&self) -> (r: bool)
        ensures
            r == hot_bit(self.widget_state.flags),
    {
        proof {
            lemma_flag_bits(self.widget_state.flags.bits);
        }
        self.widget_state.flags.contains(PodFlags::is_hot())
    }

    /// Whether the widget is active.
    pub fn is_active(&self) -> (r: bool)
        ensures
            r == active_bit(self.widget_state.flags),
    {
        proof {
            lemma_flag_bits(self.widget_state.flags.bits);
        }
        self.widget_state.flags.contains(PodFlags::is_active())
    }

    /// Requests a paint pass for the widget.
    pub fn request_paint(&mut self)
        ensures
            final(self).widget_state.flags.bits == old(self).widget_state.flags.bits | 0x8,
            same_geometry(old(self).widget_state, final(self).widget_state),
            final(self).cx_state == old(self).cx_state,
    {
        self.widget_state.flags.insert(PodFlags::request_paint());
    }

    /// Requests another animation step: the application renders again, and the widget
    /// gets the next [`LifeCycle::Animate`] notification.
    pub fn request_animation_update(&mut self)
        ensures
            final(self).widget_state.flags.bits == old(self).widget_state.flags.bits | 0x2000,
            same_geometry(old(self).widget_state, final(self).widget_state),
            final(self).cx_state == old(self).cx_state,
    {
        self.widget_state.flags.insert(PodFlags::request_animation());
    }

    /// Requests a layout pass for the widget.
    pub fn request_layout(&mut self)
        ensures
            final(self).widget_state.flags.bits == old(self).widget_state.flags.bits | 0x2,
            same_geometry(old(self).widget_state, final(self).widget_state),
            final(self).cx_state == old(self).cx_state,
    {
        self.widget_state.flags.insert(PodFlags::request_layout());
    }

    /// Notes that the widget's view context changed.
    pub fn view_context_changed(&mut self)
        ensures
            final(self).widget_state.flags.bits == old(self).widget_state.flags.bits | 0x100,
            same_geometry(old(self).widget_state, final(self).widget_state),
            final(self).cx_state == old(self).cx_state,
    {
        self.widget_state.flags.insert(PodFlags::view_context_changed());
    }
}

impl LayoutCx {
    /// The widget's size (as of the last layout pass).
    pub fn size(&self) -> (r: Size)
        ensures
            r == self.widget_state.size,
    {
        self.widget_state.size
    }

    /// Requests a paint pass for the widget.
    pub fn request_paint(&mut self)
        ensures
            final(self).widget_state.flags.bits == old(self).widget_state.flags.bits | 0x8,
            same_geometry(old(self).widget_state, final(self).widget_state),
            final(self).cx_state == old(self).cx_state,
    {
        self.widget_state.flags.insert(PodFlags::request_paint());
    }

    /// Notes that the widget's view context changed.
    pub fn view_context_changed(&mut self)
        ensures
            final(self).widget_state.flags.bits == old(self).widget_state.flags.bits | 0x100,
            same_geometry(old(self).widget_state, final(self).widget_state),
            final(self).cx_state == old(self).cx_state,
    {
        self.widget_state.flags.insert(PodFlags::view_context_changed());
    }
}

impl PaintCx {
    /// Whether the widget is hot (under the mouse).
    pub fn is_hot(&self) -> (r: bool)
        ensures
            r == hot_bit(self.widget_state.flags),
    {
        proof {
            lemma_flag_bits(self.widget_state.flags.bits);
        }
        self.widget_state.flags.contains(PodFlags::is_hot())
    }

    /// Whether the widget is active.
    pub fn is_active(&self) -> (r: bool)
        ensures
            r == active_bit(self.widget_state.flags),
    {
        proof {
            lemma_flag_bits(self.widget_state.flags.bits);
        }
        self.widget_state.flags.contains(PodFlags::is_active())
    }

    /// The widget's rectangle in window coordinates.
    pub fn rect(&self) -> (r: Rect)
        ensures
            r == (Rect {
                x: self.widget_state.parent_window_origin.spec_translate(
                    self.widget_state.origin,
                ).x,
                y: self.widget_state.parent_window_origin.spec_translate(
                    self.widget_state.origin,
                ).y,
                width: self.widget_state.size.width,
                height: self.widget_state.size.height,
            }),
    {
        self.widget_state.rect()
    }

    /// The widget's size.
    pub fn size(&self) -> (r: Size)
        ensures
            r == self.widget_state.size,
    {
        self.widget_state.size
    }
}

/// The widget protocol. Every method keeps the size, the position and the hotness
/// that the context records for the widget: those belong to the widget's pod. What a
/// method does beyond that each kind of widget states in the matching spec function
/// (`paint_spec`, `layout_spec`, `event_spec`); a lifecycle notification never takes
/// back a paint request.
pub trait Widget: Sized {
    /// What painting does to the widget (`old_w` to `new_w`) and to its context.
    open spec fn paint_spec(old_w: Self, new_w: Self, old_cx: PaintCx, new_cx: PaintCx) -> bool {
        true
    }

    /// What laying the widget out within `bc` does, `size` being the size it chose.
    open spec fn layout_spec(
        old_w: Self,
        new_w: Self,
        old_cx: LayoutCx,
        new_cx: LayoutCx,
        bc: BoxConstraints,
        size: Size,
    ) -> bool {
        true
    }

    /// What handling the lifecycle notification `event` does to the widget and to its
    /// context.
    open spec fn lifecycle_spec(old_w: Self, new_w: Self, old_cx: LifeCycleCx, new_cx: LifeCycleCx, event: LifeCycle) -> bool {
        true
    }

    /// What handling `event` does to the widget and to its context.
    open spec fn event_spec(old_w: Self, new_w: Self, old_cx: EventCx, new_cx: EventCx, event: Event) -> bool {
        true
    }

    /// Paints the widget.
    fn paint(&mut self, cx: &mut PaintCx)
        ensures
            keeps_state(old(cx).widget_state, final(cx).widget_state),
            Self::paint_spec(*old(self), *final(self), *old(cx), *final(cx)),
    ;

    /// Computes the size of the widget within the constraints `bc` (a container lays
    /// out and positions its children).
    fn layout(&mut self, cx: &mut LayoutCx, bc: &BoxConstraints) -> (size: Size)
        ensures
            keeps_state(old(cx).widget_state, final(cx).widget_state),
            Self::layout_spec(*old(self), *final(self), *old(cx), *final(cx), *bc, size),
    ;

    /// Handles a lifecycle notification.
    fn lifecycle(&mut self, cx: &mut LifeCycleCx, event: &LifeCycle)
        ensures
            keeps_state(old(cx).widget_state, final(cx).widget_state),
            old(cx).widget_state.flags.bits & 0x8 != 0 ==> final(cx).widget_state.flags.bits & 0x8
                != 0,
            Self::lifecycle_spec(*old(self), *final(self), *old(cx), *final(cx), *event),
    ;

    /// Handles an event.
    fn event(&mut self, cx: &mut EventCx, event: &Event)
        ensures
            keeps_state(old(cx).widget_state, final(cx).widget_state),
            Self::event_spec(*old(self), *final(self), *old(cx), *final(cx), *event),
    ;
}

/// A widget together with the state its container keeps about it.
pub struct Pod<W> {
    pub state: WidgetState,
    pub widget: W,
}

/// The mouse position of a mouse event.
pub open spec fn mouse_point(e: RawMouseEvent) -> Point {
    Point { x: e.column as i32, y: e.row as i32 }
}

/// Whether the mouse event is a motion (with or without a pressed button).
pub open spec fn is_motion(kind: MouseEventKind) -> bool {
    match kind {
        MouseEventKind::Moved => true,
        MouseEventKind::Drag(_) => true,
        _ => false,
    }
}

/// Whether a pod passes a mouse event on to its widget: when the pod had an active
/// descendant, is hot now, or its hotness changed with a motion of the mouse.
pub open spec fn mouse_recurses(had_active: bool, is_hot: bool, hot_changed: bool, kind: MouseEventKind) -> bool {
    had_active || is_hot || (hot_changed && is_motion(kind))
}

/// A coordinate of a mouse event moved into a widget whose origin is at `origin`
/// (see [`shift_coord`]).
fn shift_coordinate(c: i16, origin: i32) -> (r: i16)
    ensures
        r == shift_coord(c, origin),
{
    let o: i64 = if origin < 0 {
        0
    } else {
        origin as i64
    };
    let d: i64 = c as i64 - o;
    if d < 0 {
        0
    } else {
        d as i16
    }
}

fn is_motion_kind(kind: MouseEventKind) -> (r: bool)
    ensures
        r == is_motion(kind),
{
    match kind {
        MouseEventKind::Moved => true,
        MouseEventKind::Drag(_) => true,
        _ => false,
    }
}

/// The context that a pod hands its widget for a layout: the parent's shared state with
/// the pod's own state.
pub open spec fn inner_layout_cx<W>(pod: Pod<W>, cx: LayoutCx) -> LayoutCx {
    LayoutCx { cx_state: cx.cx_state, widget_state: pod.state }
}

/// The context that a pod hands its widget for painting: the parent's shared state,
/// paint instructions and imposed style, with the pod's own state.
pub open spec fn inner_paint_cx<W>(pod: Pod<W>, cx: PaintCx) -> PaintCx {
    PaintCx {
        cx_state: cx.cx_state,
        widget_state: pod.state,
        commands: cx.commands,
        override_style: cx.override_style,
    }
}

/// What laying out a pod within `bc` does: its widget is laid out within `bc` (as the
/// widget's `layout_spec` says) and chooses the size `r`, which the pod takes; the pod
/// keeps its position, needs a new origin, no longer asks for a layout, and its upward
/// flags are merged into the parent's.
pub open spec fn pod_layout_post<W: Widget>(
    old_pod: Pod<W>,
    new_pod: Pod<W>,
    old_cx: LayoutCx,
    new_cx: LayoutCx,
    bc: BoxConstraints,
    r: Size,
) -> bool {
    &&& exists|inner: LayoutCx|
        #[trigger] W::layout_spec(old_pod.widget, new_pod.widget, inner_layout_cx(old_pod, old_cx), inner, bc, r)
            && new_cx.cx_state == inner.cx_state
    &&& new_pod.state.size == r
    &&& new_pod.state.origin == old_pod.state.origin
    &&& new_pod.state.parent_window_origin == old_pod.state.parent_window_origin
    &&& new_pod.state.flags.bits & 0x1000 != 0
    &&& new_pod.state.flags.bits & 0x2 == 0
    &&& new_pod.state.flags.bits & 0x200 == old_pod.state.flags.bits & 0x200
    &&& r != old_pod.state.size ==> new_pod.state.flags.bits & 0x100 != 0
    &&& new_cx.widget_state.flags == merged(
        old_cx.widget_state.flags,
        new_pod.state.flags,
    )
    &&& same_geometry(old_cx.widget_state, new_cx.widget_state)
    &&& parent_keeps(old_cx.widget_state, new_cx.widget_state)
}

/// What painting a pod does: its widget paints (as the widget's `paint_spec` says), and
/// the paint instructions and shared state it leaves are the parent's from then on; the
/// pod's paint request is cleared, its geometry and hotness are kept, and the parent's
/// state and the imposed style are left as they were.
pub open spec fn pod_paint_post<W: Widget>(old_pod: Pod<W>, new_pod: Pod<W>, old_cx: PaintCx, new_cx: PaintCx) -> bool {
    &&& exists|inner: PaintCx|
        #[trigger] W::paint_spec(old_pod.widget, new_pod.widget, inner_paint_cx(old_pod, old_cx), inner)
            && new_cx.commands == inner.commands && new_cx.cx_state == inner.cx_state
            && new_pod.state.flags.bits == inner.widget_state.flags.bits & !0x8u32
    &&& new_pod.state.flags.bits & 0x8 == 0
    &&& keeps_state(old_pod.state, new_pod.state)
    &&& new_cx.widget_state == old_cx.widget_state
    &&& new_cx.override_style == old_cx.override_style
}

/// A coordinate of a mouse event moved into a widget whose origin is at `origin`: never
/// below 0, the origin itself counting from 0.
pub open spec fn shift_coord(c: i16, origin: i32) -> i16 {
    let o: int = if origin < 0 {
        0
    } else {
        origin as int
    };
    if c - o < 0 {
        0
    } else {
        (c - o) as i16
    }
}

/// The event as the widget of `pod` gets it: a mouse event moved into the widget's
/// coordinates, any other event as it is.
pub open spec fn child_event<W>(pod: Pod<W>, event: Event) -> Event {
    match event {
        Event::Mouse(me) => Event::Mouse(
            RawMouseEvent {
                column: shift_coord(me.column, pod.state.origin.x),
                row: shift_coord(me.row, pod.state.origin.y),
                ..me
            },
        ),
        _ => event,
    }
}

/// The widget of the pod got `event`: from some state (the widget as it was, unless its
/// hotness changed first), in a fresh context that was not handled, and what it did (as
/// its `event_spec` says) is what the parent's context holds then.
pub open spec fn widget_got_event<W: Widget>(old_pod: Pod<W>, new_pod: Pod<W>, new_cx: EventCx, event: Event, hot_changed: bool) -> bool {
    exists|w0: W, c0: EventCx, c1: EventCx|
        #[trigger] W::event_spec(w0, new_pod.widget, c0, c1, event) && !c0.is_handled
            && new_cx.is_handled == c1.is_handled && new_cx.cx_state == c1.cx_state
            && (!hot_changed ==> w0 == old_pod.widget)
}

/// What dispatching `event` through a pod does: nothing once the event is handled;
/// else mouse events update the pod's hotness and reach the widget when it is hot, has
/// an active descendant or just changed hotness with a motion; resizes ask for layout
/// and paint; focus loss clears hot and active; other events are ignored.
pub open spec fn pod_event_post<W: Widget>(old_pod: Pod<W>, new_pod: Pod<W>, old_cx: EventCx, new_cx: EventCx, event: Event) -> bool {
    &&& old_cx.is_handled ==> {
        &&& new_cx.widget_state == old_cx.widget_state
        &&& new_cx.is_handled
        &&& new_pod.state == old_pod.state
        &&& new_pod.widget == old_pod.widget
    }
    &&& same_geometry(old_pod.state, new_pod.state)
    &&& same_geometry(old_cx.widget_state, new_cx.widget_state)
    &&& parent_keeps(old_cx.widget_state, new_cx.widget_state)
    &&& !old_cx.is_handled ==> match event {
        Event::Mouse(me) => {
            let hot = hot_at(old_pod.state, Some(mouse_point(me)));
            let had_active = old_pod.state.flags.bits & 0x800 != 0;
            let hot_changed = hot_bit(old_pod.state.flags) != hot;
            &&& hot_bit(new_pod.state.flags) == hot
            &&& if mouse_recurses(had_active, hot, hot_changed, me.kind) {
                &&& new_cx.widget_state.flags == merged(
                    old_cx.widget_state.flags,
                    new_pod.state.flags,
                )
                &&& widget_got_event(old_pod, new_pod, new_cx, child_event(old_pod, event), hot_changed)
            } else {
                &&& new_cx.widget_state == old_cx.widget_state
                &&& new_cx.is_handled == old_cx.is_handled
            }
        },
        Event::Resize { .. } => {
            &&& widget_got_event(old_pod, new_pod, new_cx, event, false)
            &&& hot_bit(new_pod.state.flags) == hot_bit(old_pod.state.flags)
            &&& new_cx.widget_state.flags == merged(
                old_cx.widget_state.flags,
                new_pod.state.flags,
            )
        },
        Event::FocusLost => {
            &&& widget_got_event(old_pod, new_pod, new_cx, event, false)
            &&& !hot_bit(new_pod.state.flags)
            &&& new_cx.widget_state.flags == merged(
                old_cx.widget_state.flags,
                new_pod.state.flags,
            )
        },
        _ => {
            &&& new_cx.widget_state == old_cx.widget_state
            &&& new_cx.is_handled == old_cx.is_handled
            &&& new_pod.state == old_pod.state
            &&& new_pod.widget == old_pod.widget
        },
    }
}

/// The widget of the pod got the lifecycle notification `event`: from some state (the
/// widget as it was, unless its hotness changed first), and what it did (as its
/// `lifecycle_spec` says) is what the parent's context holds then.
pub open spec fn widget_got_lifecycle<W: Widget>(old_pod: Pod<W>, new_pod: Pod<W>, new_cx: LifeCycleCx, event: LifeCycle, hot_changed: bool) -> bool {
    exists|w0: W, c0: LifeCycleCx, c1: LifeCycleCx|
        #[trigger] W::lifecycle_spec(w0, new_pod.widget, c0, c1, event) && new_cx.cx_state == c1.cx_state
            && (!hot_changed ==> w0 == old_pod.widget)
}

/// What passing the lifecycle notification `event` through a pod does (see
/// [`Pod::lifecycle`]).
pub open spec fn pod_lifecycle_post<W: Widget>(old_pod: Pod<W>, new_pod: Pod<W>, old_cx: LifeCycleCx, new_cx: LifeCycleCx, event: LifeCycle) -> bool {
    &&& old_pod.state.flags.bits & 0x8 != 0 ==> new_pod.state.flags.bits & 0x8 != 0
    &&& old_cx.widget_state.flags.bits & 0x8 != 0 ==> new_cx.widget_state.flags.bits & 0x8 != 0
    &&& new_pod.state.size == old_pod.state.size
    &&& new_pod.state.origin == old_pod.state.origin
    &&& same_geometry(old_cx.widget_state, new_cx.widget_state)
    &&& parent_keeps(old_cx.widget_state, new_cx.widget_state)
    &&& match event {
        LifeCycle::HotChanged(_) => {
            &&& new_pod.state == old_pod.state
            &&& new_pod.widget == old_pod.widget
            &&& new_cx.widget_state == old_cx.widget_state
        },
        LifeCycle::ViewContextChanged(view) => {
            &&& widget_got_lifecycle(
                old_pod,
                new_pod,
                new_cx,
                LifeCycle::ViewContextChanged(view.spec_translate_to(old_pod.state.origin)),
                hot_bit(old_pod.state.flags) != hot_at(old_pod.state, view.mouse_position),
            )
            &&& new_pod.state.parent_window_origin == view.window_origin
            &&& hot_bit(new_pod.state.flags) == hot_at(
                old_pod.state,
                view.mouse_position,
            )
            &&& new_cx.widget_state.flags == merged(
                old_cx.widget_state.flags,
                new_pod.state.flags,
            )
        },
        LifeCycle::TreeUpdate => if old_pod.state.flags.bits & 0x10 != 0 {
            &&& widget_got_lifecycle(old_pod, new_pod, new_cx, event, false)
            &&& new_cx.widget_state.flags == merged(
                old_cx.widget_state.flags,
                new_pod.state.flags,
            )
        } else {
            &&& new_pod.state == old_pod.state
            &&& new_pod.widget == old_pod.widget
            &&& new_cx.widget_state == old_cx.widget_state
        },
        LifeCycle::Animate => if old_pod.state.flags.bits & 0x2000 != 0 {
            &&& widget_got_lifecycle(old_pod, new_pod, new_cx, event, false)
            &&& new_cx.widget_state.flags == merged(
                old_cx.widget_state.flags,
                new_pod.state.flags,
            )
        } else {
            &&& new_pod.state == old_pod.state
            &&& new_pod.widget == old_pod.widget
            &&& new_cx.widget_state == old_cx.widget_state
        },
    }
}

impl<W: Widget> Pod<W> {
    /// Wraps `widget` into a pod, so it can take part in layout and event flow.
    pub fn new(widget: W) -> (r: Pod<W>)
        ensures
            r.state == initial_widget_state(),
            r.widget == widget,
    {
        Pod { state: WidgetState::new(), widget }
    }

    /// Sets the requested flags on this pod and returns the change flags that the owner
    /// of the pod has to take over.
    pub fn mark(&mut self, flags: ChangeFlags) -> (r: ChangeFlags)
        ensures
            final(self).state.flags.bits == old(self).state.flags.bits | ((flags.bits as u32)
                & 0x3f1b),
            same_geometry(old(self).state, final(self).state),
            final(self).widget == old(self).widget,
            r.bits == flags.bits & 0x1b,
    {
        self.state.request(PodFlags::from_bits_truncate(flags.bits() as u32));
        flags.upwards()
    }

    /// The size of the widget (as of the last layout pass).
    pub fn size(&self) -> (r: Size)
        ensures
            r == self.state.size,
    {
        self.state.size
    }

    /// Sets the origin of the widget in the parent's coordinate space. When it changes,
    /// the parent is asked to repaint, and both note that the view context changed.
    pub fn set_origin(&mut self, cx: &mut LayoutCx, origin: Point)
        ensures
            final(self).widget == old(self).widget,
            final(cx).cx_state == old(cx).cx_state,
            same_geometry(old(cx).widget_state, final(cx).widget_state),
            final(self).state.origin == origin,
            final(self).state.size == old(self).state.size,
            final(self).state.parent_window_origin == old(self).state.parent_window_origin,
            parent_keeps(old(cx).widget_state, final(cx).widget_state),
            origin != old(self).state.origin ==> {
                &&& final(self).state.flags.bits == old(self).state.flags.bits | 0x100
                &&& final(cx).widget_state.flags.bits == old(cx).widget_state.flags.bits | 0x108
            },
            origin == old(self).state.origin ==> {
                &&& final(self).state.flags == old(self).state.flags
                &&& final(cx).widget_state.flags == old(cx).widget_state.flags
            },
    {
        if origin != self.state.origin {
            self.state.origin = origin;
            cx.view_context_changed();
            cx.request_paint();
            self.state.flags.insert(PodFlags::view_context_changed());
            proof {
                lemma_flag_bits(old(cx).widget_state.flags.bits);
            }
        }
    }

    /// Lays out the widget within `bc` and records its size. The pod then waits for its
    /// origin, no longer requests a layout, and the parent takes over its upward flags.
    pub fn layout(&mut self, cx: &mut LayoutCx, bc: &BoxConstraints) -> (r: Size)
        ensures
            pod_layout_post(*old(self), *final(self), *old(cx), *final(cx), *bc, r),

    {
        let mut cx_state = CxState { messages: Vec::new() };
        core::mem::swap(&mut cx_state, &mut cx.cx_state);
        let mut child_state = WidgetState::new();
        core::mem::swap(&mut child_state, &mut self.state);
        let mut child_cx = LayoutCx { cx_state, widget_state: child_state };
        assert(child_cx == inner_layout_cx(*old(self), *old(cx)));
        let new_size = self.widget.layout(&mut child_cx, bc);
        let ghost inner = child_cx;
        assert(W::layout_spec(old(self).widget, self.widget, inner_layout_cx(*old(self), *old(cx)), inner, *bc, new_size));
        self.state = child_cx.widget_state;
        cx.cx_state = child_cx.cx_state;
        let ghost b0 = self.state.flags.bits;
        if new_size != self.state.size {
            self.state.flags.insert(PodFlags::view_context_changed());
        }
        let ghost b1 = self.state.flags.bits;
        self.state.size = new_size;
        self.state.flags.insert(PodFlags::needs_set_origin());
        let ghost b2 = self.state.flags.bits;
        self.state.flags.remove(PodFlags::request_layout());
        proof {
            lemma_flag_bits(b0);
            lemma_flag_bits(b1);
            lemma_flag_bits(b2);
        }
        proof {
            lemma_merge_bits(cx.widget_state.flags.bits, self.state.flags.bits);
        }
        cx.widget_state.merge_up(&self.state);
        assert(W::layout_spec(old(self).widget, self.widget, inner_layout_cx(*old(self), *old(cx)), inner, *bc, self.state.size)
            && cx.cx_state == inner.cx_state);
        self.state.size
    }

    /// Lets the widget paint; the pod no longer requests a paint pass.
    pub fn paint(&mut self, cx: &mut PaintCx)
        ensures
            pod_paint_post(*old(self), *final(self), *old(cx), *final(cx)),

    {
        let mut cx_state = CxState { messages: Vec::new() };
        core::mem::swap(&mut cx_state, &mut cx.cx_state);
        let mut commands: Vec<DrawCommand> = Vec::new();
        core::mem::swap(&mut commands, &mut cx.commands);
        let mut child_state = WidgetState::new();
        core::mem::swap(&mut child_state, &mut self.state);
        let mut inner_cx = PaintCx {
            cx_state,
            widget_state: child_state,
            commands,
            override_style: cx.override_style,
        };
        assert(inner_cx == inner_paint_cx(*old(self), *old(cx)));
        self.widget.paint(&mut inner_cx);
        let ghost inner = inner_cx;
        assert(W::paint_spec(old(self).widget, self.widget, inner_paint_cx(*old(self), *old(cx)), inner));
        self.state = inner_cx.widget_state;
        cx.cx_state = inner_cx.cx_state;
        cx.commands = inner_cx.commands;
        proof {
            lemma_flag_bits(self.state.flags.bits);
        }
        self.state.flags.remove(PodFlags::request_paint());
        assert(W::paint_spec(old(self).widget, self.widget, inner_paint_cx(*old(self), *old(cx)), inner)
            && cx.commands == inner.commands && cx.cx_state == inner.cx_state
            && self.state.flags.bits == inner.widget_state.flags.bits & !0x8u32);
    }

    /// Updates the hotness of the widget for the mouse at `mouse_pos` (in the parent's
    /// coordinates) and tells the widget when it changed. Returns whether it changed.
    fn set_hot_state(
        widget: &mut W,
        widget_state: &mut WidgetState,
        cx_state: &mut CxState,
        mouse_pos: Option<Point>,
    ) -> (r: bool)
        ensures
            hot_bit(final(widget_state).flags) == hot_at(*old(widget_state), mouse_pos),
            r == (hot_bit(old(widget_state).flags) != hot_at(*old(widget_state), mouse_pos)),
            same_geometry(*old(widget_state), *final(widget_state)),
            !r ==> *final(widget_state) == *old(widget_state),
            !r ==> *final(widget) == *old(widget),
            old(widget_state).flags.bits & 0x8 != 0 ==> final(widget_state).flags.bits & 0x8 != 0,
    {
        let rect = Rect::from_origin_size(widget_state.origin, widget_state.size);
        proof {
            lemma_flag_bits(widget_state.flags.bits);
        }
        let had_hot = widget_state.flags.contains(PodFlags::is_hot());
        let is_hot = match mouse_pos {
            Some(pos) => rect.contains(pos),
            None => false,
        };
        widget_state.flags.set(PodFlags::is_hot(), is_hot);
        proof {
            lemma_flag_bits(old(widget_state).flags.bits);
        }
        if had_hot != is_hot {
            let hot_changed_event = LifeCycle::HotChanged(is_hot);
            let mut ws = WidgetState::new();
            core::mem::swap(&mut ws, widget_state);
            let mut cs = CxState { messages: Vec::new() };
            core::mem::swap(&mut cs, cx_state);
            let mut child_cx = LifeCycleCx { cx_state: cs, widget_state: ws };
            widget.lifecycle(&mut child_cx, &hot_changed_event);
            *widget_state = child_cx.widget_state;
            *cx_state = child_cx.cx_state;
            return true;
        }
        false
    }

    /// Dispatches an event to the widget. Nothing happens for an event that was
    /// handled already. Mouse events update the hotness of the widget and reach it (in
    /// its coordinates) when it has an active descendant, is hot, or its hotness changed
    /// with a motion; a resize requests layout and paint; focus loss clears hotness and
    /// activity; other events do not reach the widget.
    pub fn event(&mut self, cx: &mut EventCx, event: &Event)
        ensures
            pod_event_post(*old(self), *final(self), *old(cx), *final(cx), *event),

    {
        if cx.is_handled {
            return;
        }
        proof {
            lemma_flag_bits(self.state.flags.bits);
        }
        let had_active = self.state.flags.contains(PodFlags::has_active());
        let mut modified: Option<RawMouseEvent> = None;
        let recurse = match event {
            Event::Mouse(mouse_event) => {
                let pos = Point::new(mouse_event.column as i32, mouse_event.row as i32);
                let hot_changed = Pod::<W>::set_hot_state(
                    &mut self.widget,
                    &mut self.state,
                    &mut cx.cx_state,
                    Some(pos),
                );
                proof {
                    lemma_flag_bits(self.state.flags.bits);
                }
                let now_hot = self.state.flags.contains(PodFlags::is_hot());
                if had_active || now_hot || (hot_changed && is_motion_kind(mouse_event.kind)) {
                    let column = shift_coordinate(mouse_event.column, self.state.origin.x);
                    let row = shift_coordinate(mouse_event.row, self.state.origin.y);
                    modified = Some(RawMouseEvent { column, row, ..*mouse_event });
                    true
                } else {
                    false
                }
            },
            Event::Resize { .. } => {
                proof {
                    lemma_flag_bits(self.state.flags.bits);
                    assert(8u32 | 2u32 == 0xau32) by (bit_vector);
                }
                self.state.request(PodFlags::request_paint().union(PodFlags::request_layout()));
                true
            },
            Event::FocusLost => {
                proof {
                    lemma_flag_bits(self.state.flags.bits);
                    assert(0x200u32 | 0x400u32 == 0x600u32) by (bit_vector);
                }
                self.state.flags.set(PodFlags::is_hot().union(PodFlags::is_active()), false);
                true
            },
            _ => {
                return ;
            },
        };
        if recurse {
            proof {
                lemma_flag_bits(self.state.flags.bits);
            }
            let is_active = self.state.flags.contains(PodFlags::is_active());
            self.state.flags.set(PodFlags::has_active(), is_active);
            let mut cs = CxState { messages: Vec::new() };
            core::mem::swap(&mut cs, &mut cx.cx_state);
            let mut ws = WidgetState::new();
            core::mem::swap(&mut ws, &mut self.state);
            let mut inner_cx = EventCx { cx_state: cs, widget_state: ws, is_handled: false };
            let ghost w0 = self.widget;
            let ghost c0 = inner_cx;
            let ghost delivered = match modified {
                Some(me) => Event::Mouse(me),
                None => *event,
            };
            match modified {
                Some(me) => {
                    let child_event = Event::Mouse(me);
                    self.widget.event(&mut inner_cx, &child_event);
                },
                None => {
                    self.widget.event(&mut inner_cx, event);
                },
            }
            let ghost c1 = inner_cx;
            assert(W::event_spec(w0, self.widget, c0, c1, delivered));
            self.state = inner_cx.widget_state;
            cx.cx_state = inner_cx.cx_state;
            cx.is_handled = cx.is_handled || inner_cx.is_handled;
            assert(W::event_spec(w0, self.widget, c0, c1, delivered) && !c0.is_handled
                && cx.is_handled == c1.is_handled && cx.cx_state == c1.cx_state);
            proof {
                lemma_merge_bits(cx.widget_state.flags.bits, self.state.flags.bits);
            }
            cx.widget_state.merge_up(&self.state);
        }
    }

    /// Dispatches a lifecycle notification. A hot change is meant for this pod only; a
    /// changed view context updates the position and hotness of the widget and reaches
    /// it translated to its origin; a tree update reaches it when its subtree changed;
    /// an animation step reaches it when it asked for one: the request is cleared, and a
    /// widget that wants another step asks again.
    pub fn lifecycle(&mut self, cx: &mut LifeCycleCx, event: &LifeCycle)
        ensures
            pod_lifecycle_post(*old(self), *final(self), *old(cx), *final(cx), *event),

    {
        let mut modified: Option<ViewContext> = None;
        let recurse = match event {
            LifeCycle::HotChanged(_) => false,
            LifeCycle::ViewContextChanged(view) => {
                self.state.parent_window_origin = view.window_origin;
                Pod::<W>::set_hot_state(
                    &mut self.widget,
                    &mut self.state,
                    &mut cx.cx_state,
                    view.mouse_position,
                );
                modified = Some(view.translate_to(self.state.origin));
                proof {
                    lemma_flag_bits(self.state.flags.bits);
                }
                self.state.flags.remove(PodFlags::view_context_changed());
                true
            },
            LifeCycle::TreeUpdate => {
                proof {
                    lemma_flag_bits(self.state.flags.bits);
                }
                if self.state.flags.contains(PodFlags::tree_changed()) {
                    self.state.flags.remove(PodFlags::tree_changed());
                    true
                } else {
                    false
                }
            },
            LifeCycle::Animate => {
                proof {
                    lemma_flag_bits(self.state.flags.bits);
                }
                if self.state.flags.contains(PodFlags::request_animation()) {
                    self.state.flags.remove(PodFlags::request_animation());
                    true
                } else {
                    false
                }
            },
        };
        if recurse {
            let mut cs = CxState { messages: Vec::new() };
            core::mem::swap(&mut cs, &mut cx.cx_state);
            let mut ws = WidgetState::new();
            core::mem::swap(&mut ws, &mut self.state);
            let mut child_cx = LifeCycleCx { cx_state: cs, widget_state: ws };
            let ghost w0 = self.widget;
            let ghost c0 = child_cx;
            let ghost delivered = match modified {
                Some(vc) => LifeCycle::ViewContextChanged(vc),
                None => *event,
            };
            match modified {
                Some(vc) => {
                    let child_event = LifeCycle::ViewContextChanged(vc);
                    self.widget.lifecycle(&mut child_cx, &child_event);
                },
                None => {
                    self.widget.lifecycle(&mut child_cx, event);
                },
            }
            let ghost c1 = child_cx;
            assert(W::lifecycle_spec(w0, self.widget, c0, c1, delivered));
            self.state = child_cx.widget_state;
            cx.cx_state = child_cx.cx_state;
            assert(W::lifecycle_spec(w0, self.widget, c0, c1, delivered) && cx.cx_state == c1.cx_state);
            proof {
                lemma_merge_bits(cx.widget_state.flags.bits, self.state.flags.bits);
            }
            cx.widget_state.merge_up(&self.state);
        }
    }
}

} // verus!
