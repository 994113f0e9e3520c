//! Terminal events, lifecycle notifications, and the widgets that turn mouse
//! interaction into messages (mouse, click, hover) or styles (hover, pressed).
use vstd::prelude::*;

use crate::flags::{CatchMouseButton, KeyModifiers, PodFlags};
use crate::geometry::{BoxConstraints, Point, Size};
use crate::id::{clone_id_path, Id};
use crate::style::{patched, Style};
use crate::widget::pod::{
    pod_event_post, pod_layout_post, pod_lifecycle_post, pod_paint_post,
    active_bit, hot_bit, initial_widget_state, keeps_state, lemma_flag_bits, parent_keeps,
    pushed, EventCx, LayoutCx, LifeCycleCx, Message, MessageBody, PaintCx, Pod, Widget,
};

verus! {

/// A key press as the terminal reports it; carried through to the views unread.
#[verifier::external_type_specification]
#[verifier::external_body]
pub struct ExKeyEvent(crossterm::event::KeyEvent);

/// A mouse button.
#[derive(Clone, Copy, Debug, PartialEq, Eq, Structural, Hash)]
pub enum MouseButton {
    Left,
    Right,
    Middle,
}

/// What happened with the mouse.
#[derive(Clone, Copy, Debug, PartialEq, Eq, Structural, Hash)]
pub enum MouseEventKind {
    /// A button was pressed.
    Down(MouseButton),
    /// A button was released.
    Up(MouseButton),
    /// The mouse moved while the button was pressed.
    Drag(MouseButton),
    /// The mouse moved while no button was pressed.
    Moved,
    ScrollDown,
    ScrollUp,
    ScrollLeft,
    ScrollRight,
}

/// A mouse event in the coordinates of the widget that receives it.
#[derive(Clone, Copy, Debug, PartialEq, Eq, Structural, Hash)]
pub struct RawMouseEvent {
    pub kind: MouseEventKind,
    pub column: i16,
    pub row: i16,
    pub modifiers: KeyModifiers,
}

/// An event that is dispatched through the widget tree.
#[derive(Debug)]
pub enum Event {
    /// Only sent once at the start of the application.
    Start,
    Quit,
    /// Sent e.g. when a future requests waking up the application.
    Wake,
    FocusLost,
    FocusGained,
    Resize { width: u16, height: u16 },
    Mouse(RawMouseEvent),
    Key(crossterm::event::KeyEvent),
}

/// The position of a widget relative to the window, and where the mouse is relative
/// to the widget.
#[derive(Clone, Copy, Debug, PartialEq, Eq, Structural)]
pub struct ViewContext {
    pub window_origin: Point,
    pub mouse_position: Option<Point>,
}

impl ViewContext {
    pub open spec fn spec_translate_to(self, new_origin: Point) -> ViewContext {
        ViewContext {
            window_origin: self.window_origin.spec_translate(new_origin),
            mouse_position: match self.mouse_position {
                Some(p) => Some(p.spec_translate_back(new_origin)),
                None => None,
            },
        }
    }

    /// The view context of a child at `new_origin` (in this context's coordinates): the
    /// window origin moves by `new_origin`, the mouse position moves back by it.
    pub fn translate_to(&self, new_origin: Point) -> (r: ViewContext)
        ensures
            r == self.spec_translate_to(new_origin),
    {
        let mouse_position = match self.mouse_position {
            Some(p) => Some(p.translate_back(new_origin)),
            None => None,
        };
        ViewContext { window_origin: self.window_origin.translate(new_origin), mouse_position }
    }
}

/// Law: translating a view context into a child and then into a grandchild is the same
/// as translating it by the sum of the two offsets (where no coordinate saturates).
pub proof fn lemma_translate_compose(vc: ViewContext, a: Point, b: Point)
    requires
        i32::MIN <= vc.window_origin.x + a.x + b.x <= i32::MAX,
        i32::MIN <= vc.window_origin.y + a.y + b.y <= i32::MAX,
        i32::MIN <= vc.window_origin.x + a.x <= i32::MAX,
        i32::MIN <= vc.window_origin.y + a.y <= i32::MAX,
        i32::MIN <= a.x + b.x <= i32::MAX,
        i32::MIN <= a.y + b.y <= i32::MAX,
        vc.mouse_position matches Some(p) ==> {
            &&& i32::MIN <= p.x - a.x - b.x <= i32::MAX
            &&& i32::MIN <= p.y - a.y - b.y <= i32::MAX
            &&& i32::MIN <= p.x - a.x <= i32::MAX
            &&& i32::MIN <= p.y - a.y <= i32::MAX
        },
    ensures
        vc.spec_translate_to(a).spec_translate_to(b) == vc.spec_translate_to(
            a.spec_translate(b),
        ),
{
}

/// A lifecycle notification.
#[derive(Debug)]
pub enum LifeCycle {
    /// The widget became hot (`true`) or stopped being hot (`false`).
    HotChanged(bool),
    /// The widget's position relative to the window, or the mouse position, changed.
    ViewContextChanged(ViewContext),
    TreeUpdate,
    Animate,
}

/// A message representing a mouse event.
#[derive(Clone, Copy, Debug, PartialEq, Eq, Structural, Hash)]
pub struct MouseEvent {
    pub over_element: bool,
    pub is_active: bool,
    pub kind: MouseEventKind,
    pub column: i16,
    pub row: i16,
    pub modifiers: KeyModifiers,
}

impl MouseEvent {
    pub open spec fn spec_new(event: RawMouseEvent, over_element: bool, is_active: bool) -> MouseEvent {
        MouseEvent {
            over_element,
            is_active,
            kind: event.kind,
            column: event.column,
            row: event.row,
            modifiers: event.modifiers,
        }
    }

    /// The message for `event`, noting whether the mouse is over the element and
    /// whether the element is active.
    pub fn new(event: RawMouseEvent, over_element: bool, is_active: bool) -> (r: MouseEvent)
        ensures
            r == Self::spec_new(event, over_element, is_active),
    {
        MouseEvent {
            over_element,
            is_active,
            kind: event.kind,
            column: event.column,
            row: event.row,
            modifiers: event.modifiers,
        }
    }
}

/// Law: the message for a raw mouse event reports that event as it is (its kind,
/// position and modifier keys) together with whether the mouse is over the element and
/// whether the element is active.
pub proof fn lemma_mouse_message_reports_event(event: RawMouseEvent, over_element: bool, is_active: bool)
    ensures
        MouseEvent::spec_new(event, over_element, is_active).kind == event.kind,
        MouseEvent::spec_new(event, over_element, is_active).column == event.column,
        MouseEvent::spec_new(event, over_element, is_active).row == event.row,
        MouseEvent::spec_new(event, over_element, is_active).modifiers == event.modifiers,
        MouseEvent::spec_new(event, over_element, is_active).over_element == over_element,
        MouseEvent::spec_new(event, over_element, is_active).is_active == is_active,
{
}

/// Whether the buttons in `catch` include `button`.
pub open spec fn catches(catch: CatchMouseButton, button: MouseButton) -> bool {
    match button {
        MouseButton::Left => catch.bits & 1 != 0,
        MouseButton::Right => catch.bits & 2 != 0,
        MouseButton::Middle => catch.bits & 4 != 0,
    }
}

/// The context after a reaction: same geometry, same hotness, same handled state.
pub open spec fn reaction_keeps(a: EventCx, b: EventCx) -> bool {
    &&& crate::widget::pod::same_geometry(a.widget_state, b.widget_state)
    &&& a.widget_state.flags.bits & 0x200 == b.widget_state.flags.bits & 0x200
    &&& a.is_handled == b.is_handled
}

/// A widget that reports the mouse events over its element to the view at `id_path`,
/// and captures presses of the buttons in `catch_event` (it becomes active until the
/// button is released).
pub struct OnMouse<W> {
    pub element: Pod<W>,
    pub id_path: Vec<Id>,
    pub catch_event: CatchMouseButton,
}

/// The reaction of a [`OnMouse`] to an event after its element saw it (see
/// [`OnMouse::handle_event`]).
pub open spec fn on_mouse_reaction<W>(old_w: OnMouse<W>, new_w: OnMouse<W>, old_cx: EventCx, new_cx: EventCx, event: Event) -> bool {
    &&& reaction_keeps(old_cx, new_cx)
    &&& new_w.id_path@ == old_w.id_path@
    &&& new_w.catch_event == old_w.catch_event
    &&& ({
        let hot = hot_bit(old_cx.widget_state.flags);
        let active = active_bit(old_cx.widget_state.flags);
        let msgs = old_cx.cx_state.messages@;
        let new_msgs = new_cx.cx_state.messages@;
        let new_active = active_bit(new_cx.widget_state.flags);
        match event {
            Event::Mouse(e) => match e.kind {
                MouseEventKind::Down(button) => {
                    &&& new_active == (active || (catches(old_w.catch_event, button)
                        && hot))
                    &&& if hot {
                        pushed(
                            msgs,
                            new_msgs,
                            old_w.id_path@,
                            MessageBody::Mouse(MouseEvent::spec_new(e, true, new_active)),
                        )
                    } else {
                        new_msgs == msgs
                    }
                },
                _ => {
                    &&& new_active == (if e.kind matches MouseEventKind::Up(_) {
                        false
                    } else {
                        active
                    })
                    &&& if hot {
                        pushed(
                            msgs,
                            new_msgs,
                            old_w.id_path@,
                            MessageBody::Mouse(MouseEvent::spec_new(e, true, new_active)),
                        )
                    } else if active {
                        pushed(
                            msgs,
                            new_msgs,
                            old_w.id_path@,
                            MessageBody::Mouse(MouseEvent::spec_new(e, false, new_active)),
                        )
                    } else {
                        new_msgs == msgs
                    }
                },
            },
            Event::FocusLost => !new_active && new_msgs == msgs,
            _ => new_cx == old_cx,
        }
    })
}

impl<W: Widget> OnMouse<W> {
    /// Wraps `element`; messages go to the view at `id_path`.
    pub fn new(element: W, id_path: &Vec<Id>, catch_event: CatchMouseButton) -> (r: Self)
        ensures
            r.element.state == initial_widget_state(),
            r.element.widget == element,
            r.id_path@ == id_path@,
            r.catch_event == catch_event,
    {
        OnMouse { element: Pod::new(element), id_path: clone_id_path(id_path), catch_event }
    }

    /// The widget's own reaction to `event` (after its element saw it). A press of a
    /// caught button over the element activates it; a release deactivates it; every
    /// mouse event over the element is reported (noting that it is over the element),
    /// and so is every mouse event while the element is active; focus loss deactivates.
    pub fn handle_event(&mut self, cx: &mut EventCx, event: &Event)
        ensures
            on_mouse_reaction(*old(self), *final(self), *old(cx), *final(cx), *event),
            final(self).element == old(self).element,

    {
        proof {
            lemma_flag_bits(cx.widget_state.flags.bits);
        }
        match event {
            Event::Mouse(mouse_event) => {
                match mouse_event.kind {
                    MouseEventKind::Down(button) => {
                        let catch_event = match button {
                            MouseButton::Left => self.catch_event.intersects(
                                CatchMouseButton::left(),
                            ),
                            MouseButton::Right => self.catch_event.intersects(
                                CatchMouseButton::right(),
                            ),
                            MouseButton::Middle => self.catch_event.intersects(
                                CatchMouseButton::middle(),
                            ),
                        };
                        if catch_event && cx.is_hot() {
                            cx.set_active(true);
                        }
                        proof {
                            lemma_flag_bits(cx.widget_state.flags.bits);
                        }
                        if cx.is_hot() {
                            let active = cx.is_active();
                            cx.add_message(
                                Message::new(
                                    clone_id_path(&self.id_path),
                                    MessageBody::Mouse(MouseEvent::new(*mouse_event, true, active)),
                                ),
                            );
                        }
                    },
                    _ => {
                        let was_active = cx.is_active();
                        if let MouseEventKind::Up(_) = mouse_event.kind {
                            cx.set_active(false);
                        }
                        proof {
                            lemma_flag_bits(cx.widget_state.flags.bits);
                        }
                        let active = cx.is_active();
                        if cx.is_hot() {
                            cx.add_message(
                                Message::new(
                                    clone_id_path(&self.id_path),
                                    MessageBody::Mouse(MouseEvent::new(*mouse_event, true, active)),
                                ),
                            );
                        } else if was_active {
                            cx.add_message(
                                Message::new(
                                    clone_id_path(&self.id_path),
                                    MessageBody::Mouse(MouseEvent::new(*mouse_event, false, active)),
                                ),
                            );
                        }
                    },
                }
            },
            Event::FocusLost => {
                cx.set_active(false);
            },
            _ => {},
        }
    }
}

impl<W: Widget> Widget for OnMouse<W> {
    open spec fn lifecycle_spec(old_w: Self, new_w: Self, old_cx: LifeCycleCx, new_cx: LifeCycleCx, event: LifeCycle) -> bool {
        &&& (new_w.id_path == old_w.id_path)
        &&& (new_w.catch_event == old_w.catch_event)
        &&& (pod_lifecycle_post(old_w.element, new_w.element, old_cx, new_cx, event))
    }

    open spec fn paint_spec(old_w: Self, new_w: Self, old_cx: PaintCx, new_cx: PaintCx) -> bool {
        &&& (new_w.id_path == old_w.id_path)
        &&& (new_w.catch_event == old_w.catch_event)
        &&& (pod_paint_post(old_w.element, new_w.element, old_cx, new_cx))
    }

    open spec fn layout_spec(old_w: Self, new_w: Self, old_cx: LayoutCx, new_cx: LayoutCx, bc: BoxConstraints, size: Size) -> bool {
        &&& (new_w.id_path == old_w.id_path)
        &&& (new_w.catch_event == old_w.catch_event)
        &&& (pod_layout_post(old_w.element, new_w.element, old_cx, new_cx, bc, size))
    }

    open spec fn event_spec(old_w: Self, new_w: Self, old_cx: EventCx, new_cx: EventCx, event: Event) -> bool {
        &&& (exists|mid: EventCx|
                #![auto]
                pod_event_post(old_w.element, new_w.element, old_cx, mid, event)
                    && on_mouse_reaction(old_w, new_w, mid, new_cx, event))
    }

    fn paint(&mut self, cx: &mut PaintCx)
    {
        self.element.paint(cx);
    }

    fn layout(&mut self, cx: &mut LayoutCx, bc: &BoxConstraints) -> (size: Size)
    {
        self.element.layout(cx, bc)
    }

    fn lifecycle(&mut self, cx: &mut LifeCycleCx, event: &LifeCycle)
    {
        self.element.lifecycle(cx, event);
    }

    fn event(&mut self, cx: &mut EventCx, event: &Event)
    {
        self.element.event(cx, event);
        let ghost mid = *cx;
        self.handle_event(cx, event);
        assert(pod_event_post(old(self).element, self.element, *old(cx), mid, *event)
            && on_mouse_reaction(*old(self), *self, mid, *cx, *event));
    }
}

/// A widget that reports a click (a press and a release of the left button over its
/// element) to the view at `id_path`.
pub struct OnClick<W> {
    pub element: Pod<W>,
    pub id_path: Vec<Id>,
}

/// The reaction of a [`OnClick`] to an event after its element saw it (see
/// [`OnClick::handle_event`]).
pub open spec fn on_click_reaction<W>(old_w: OnClick<W>, new_w: OnClick<W>, old_cx: EventCx, new_cx: EventCx, event: Event) -> bool {
    &&& reaction_keeps(old_cx, new_cx)
    &&& new_w.id_path@ == old_w.id_path@
    &&& ({
        let hot = hot_bit(old_cx.widget_state.flags);
        let active = active_bit(old_cx.widget_state.flags);
        let msgs = old_cx.cx_state.messages@;
        let new_msgs = new_cx.cx_state.messages@;
        let new_active = active_bit(new_cx.widget_state.flags);
        match event {
            Event::Mouse(e) => match e.kind {
                MouseEventKind::Down(MouseButton::Left) => new_active == hot && new_msgs
                    == msgs,
                MouseEventKind::Up(MouseButton::Left) => {
                    &&& !new_active
                    &&& if hot && active {
                        pushed(msgs, new_msgs, old_w.id_path@, MessageBody::Unit)
                    } else {
                        new_msgs == msgs
                    }
                },
                _ => new_cx == old_cx,
            },
            _ => new_cx == old_cx,
        }
    })
}

impl<W: Widget> OnClick<W> {
    /// Wraps `element`; clicks go to the view at `id_path`.
    pub fn new(element: W, id_path: &Vec<Id>) -> (r: Self)
        ensures
            r.element.state == initial_widget_state(),
            r.element.widget == element,
            r.id_path@ == id_path@,
    {
        OnClick { element: Pod::new(element), id_path: clone_id_path(id_path) }
    }

    /// The widget's own reaction to `event` (after its element saw it). A press of the
    /// left button activates the widget exactly when it is hot; a release of the left
    /// button reports a click when the widget is hot and active, and deactivates it.
    pub fn handle_event(&mut self, cx: &mut EventCx, event: &Event)
        ensures
            on_click_reaction(*old(self), *final(self), *old(cx), *final(cx), *event),
            final(self).element == old(self).element,

    {
        proof {
            lemma_flag_bits(cx.widget_state.flags.bits);
        }
        if let Event::Mouse(mouse_event) = event {
            match mouse_event.kind {
                MouseEventKind::Down(MouseButton::Left) => {
                    let hot = cx.is_hot();
                    cx.set_active(hot);
                },
                MouseEventKind::Up(MouseButton::Left) => {
                    if cx.is_hot() && cx.is_active() {
                        cx.add_message(Message::new(clone_id_path(&self.id_path), MessageBody::Unit));
                    }
                    cx.set_active(false);
                },
                _ => {},
            }
        }
        proof {
            lemma_flag_bits(old(cx).widget_state.flags.bits);
        }
    }
}

impl<W: Widget> Widget for OnClick<W> {
    open spec fn lifecycle_spec(old_w: Self, new_w: Self, old_cx: LifeCycleCx, new_cx: LifeCycleCx, event: LifeCycle) -> bool {
        &&& (new_w.id_path == old_w.id_path)
        &&& (pod_lifecycle_post(old_w.element, new_w.element, old_cx, new_cx, event))
    }

    open spec fn paint_spec(old_w: Self, new_w: Self, old_cx: PaintCx, new_cx: PaintCx) -> bool {
        &&& (new_w.id_path == old_w.id_path)
        &&& (pod_paint_post(old_w.element, new_w.element, old_cx, new_cx))
    }

    open spec fn layout_spec(old_w: Self, new_w: Self, old_cx: LayoutCx, new_cx: LayoutCx, bc: BoxConstraints, size: Size) -> bool {
        &&& (new_w.id_path == old_w.id_path)
        &&& (pod_layout_post(old_w.element, new_w.element, old_cx, new_cx, bc, size))
    }

    open spec fn event_spec(old_w: Self, new_w: Self, old_cx: EventCx, new_cx: EventCx, event: Event) -> bool {
        &&& (exists|mid: EventCx|
                #![auto]
                pod_event_post(old_w.element, new_w.element, old_cx, mid, event)
                    && on_click_reaction(old_w, new_w, mid, new_cx, event))
    }

    fn paint(&mut self, cx: &mut PaintCx)
    {
        self.element.paint(cx);
    }

    fn layout(&mut self, cx: &mut LayoutCx, bc: &BoxConstraints) -> (size: Size)
    {
        self.element.layout(cx, bc)
    }

    fn lifecycle(&mut self, cx: &mut LifeCycleCx, event: &LifeCycle)
    {
        self.element.lifecycle(cx, event);
    }

    fn event(&mut self, cx: &mut EventCx, event: &Event)
    {
        self.element.event(cx, event);
        let ghost mid = *cx;
        self.handle_event(cx, event);
        assert(pod_event_post(old(self).element, self.element, *old(cx), mid, *event)
            && on_click_reaction(*old(self), *self, mid, *cx, *event));
    }
}

/// Whether an event can change hotness (a mouse event or focus loss).
pub open spec fn hover_relevant(event: Event) -> bool {
    event matches Event::Mouse(_) || event matches Event::FocusLost
}

/// A widget that reports to the view at `id_path` when the mouse enters its element.
pub struct OnHover<W> {
    pub element: Pod<W>,
    pub id_path: Vec<Id>,
    pub is_hovering: bool,
}

/// The reaction of a [`OnHover`] to an event after its element saw it (see
/// [`OnHover::handle_event`]).
pub open spec fn on_hover_reaction<W>(old_w: OnHover<W>, new_w: OnHover<W>, old_cx: EventCx, new_cx: EventCx, event: Event) -> bool {
    &&& new_w.id_path@ == old_w.id_path@
    &&& new_cx.widget_state == old_cx.widget_state
    &&& new_cx.is_handled == old_cx.is_handled
    &&& ({
        let hot = hot_bit(old_cx.widget_state.flags);
        let msgs = old_cx.cx_state.messages@;
        let new_msgs = new_cx.cx_state.messages@;
        if hover_relevant(event) {
            &&& new_w.is_hovering == hot
            &&& if hot && !old_w.is_hovering {
                pushed(msgs, new_msgs, old_w.id_path@, MessageBody::Unit)
            } else {
                new_msgs == msgs
            }
        } else {
            new_w.is_hovering == old_w.is_hovering && new_msgs == msgs
        }
    })
}

impl<W: Widget> OnHover<W> {
    /// Wraps `element`; hover notifications go to the view at `id_path`.
    pub fn new(element: W, id_path: &Vec<Id>) -> (r: Self)
        ensures
            r.element.state == initial_widget_state(),
            r.element.widget == element,
            r.id_path@ == id_path@,
            !r.is_hovering,
    {
        OnHover { element: Pod::new(element), id_path: clone_id_path(id_path), is_hovering: false }
    }

    /// The widget's own reaction to `event` (after its element saw it): after a mouse
    /// event or focus loss it hovers exactly when it is hot, and it reports exactly when
    /// it starts hovering.
    pub fn handle_event(&mut self, cx: &mut EventCx, event: &Event)
        ensures
            on_hover_reaction(*old(self), *final(self), *old(cx), *final(cx), *event),
            final(self).element == old(self).element,

    {
        let relevant = match event {
            Event::Mouse(_) => true,
            Event::FocusLost => true,
            _ => false,
        };
        if relevant {
            if cx.is_hot() && !self.is_hovering {
                self.is_hovering = true;
                cx.add_message(Message::new(clone_id_path(&self.id_path), MessageBody::Unit));
            } else if !cx.is_hot() && self.is_hovering {
                self.is_hovering = false;
            }
        }
    }
}

impl<W: Widget> Widget for OnHover<W> {
    open spec fn lifecycle_spec(old_w: Self, new_w: Self, old_cx: LifeCycleCx, new_cx: LifeCycleCx, event: LifeCycle) -> bool {
        &&& (new_w.id_path == old_w.id_path)
        &&& (new_w.is_hovering == old_w.is_hovering)
        &&& (pod_lifecycle_post(old_w.element, new_w.element, old_cx, new_cx, event))
    }

    open spec fn paint_spec(old_w: Self, new_w: Self, old_cx: PaintCx, new_cx: PaintCx) -> bool {
        &&& (new_w.id_path == old_w.id_path)
        &&& (new_w.is_hovering == old_w.is_hovering)
        &&& (pod_paint_post(old_w.element, new_w.element, old_cx, new_cx))
    }

    open spec fn layout_spec(old_w: Self, new_w: Self, old_cx: LayoutCx, new_cx: LayoutCx, bc: BoxConstraints, size: Size) -> bool {
        &&& (new_w.id_path == old_w.id_path)
        &&& (new_w.is_hovering == old_w.is_hovering)
        &&& (pod_layout_post(old_w.element, new_w.element, old_cx, new_cx, bc, size))
    }

    open spec fn event_spec(old_w: Self, new_w: Self, old_cx: EventCx, new_cx: EventCx, event: Event) -> bool {
        &&& (exists|mid: EventCx|
                #![auto]
                pod_event_post(old_w.element, new_w.element, old_cx, mid, event)
                    && on_hover_reaction(old_w, new_w, mid, new_cx, event))
    }

    fn paint(&mut self, cx: &mut PaintCx)
    {
        self.element.paint(cx);
    }

    fn layout(&mut self, cx: &mut LayoutCx, bc: &BoxConstraints) -> (size: Size)
    {
        self.element.layout(cx, bc)
    }

    fn lifecycle(&mut self, cx: &mut LifeCycleCx, event: &LifeCycle)
    {
        self.element.lifecycle(cx, event);
    }

    fn event(&mut self, cx: &mut EventCx, event: &Event)
    {
        self.element.event(cx, event);
        let ghost mid = *cx;
        self.handle_event(cx, event);
        assert(pod_event_post(old(self).element, self.element, *old(cx), mid, *event)
            && on_hover_reaction(*old(self), *self, mid, *cx, *event));
    }
}

/// A widget that reports to the view at `id_path` when the mouse leaves its element.
pub struct OnHoverLost<W> {
    pub element: Pod<W>,
    pub id_path: Vec<Id>,
    pub is_hovering: bool,
}

/// The reaction of a [`OnHoverLost`] to an event after its element saw it (see
/// [`OnHoverLost::handle_event`]).
pub open spec fn on_hover_lost_reaction<W>(old_w: OnHoverLost<W>, new_w: OnHoverLost<W>, old_cx: EventCx, new_cx: EventCx, event: Event) -> bool {
    &&& new_w.id_path@ == old_w.id_path@
    &&& new_cx.widget_state == old_cx.widget_state
    &&& new_cx.is_handled == old_cx.is_handled
    &&& ({
        let hot = hot_bit(old_cx.widget_state.flags);
        let msgs = old_cx.cx_state.messages@;
        let new_msgs = new_cx.cx_state.messages@;
        if hover_relevant(event) {
            &&& new_w.is_hovering == hot
            &&& if !hot && old_w.is_hovering {
                pushed(msgs, new_msgs, old_w.id_path@, MessageBody::Unit)
            } else {
                new_msgs == msgs
            }
        } else {
            new_w.is_hovering == old_w.is_hovering && new_msgs == msgs
        }
    })
}

impl<W: Widget> OnHoverLost<W> {
    /// Wraps `element`; notifications go to the view at `id_path`.
    pub fn new(element: W, id_path: &Vec<Id>) -> (r: Self)
        ensures
            r.element.state == initial_widget_state(),
            r.element.widget == element,
            r.id_path@ == id_path@,
            !r.is_hovering,
    {
        OnHoverLost {
            element: Pod::new(element),
            id_path: clone_id_path(id_path),
            is_hovering: false,
        }
    }

    /// The widget's own reaction to `event` (after its element saw it): after a mouse
    /// event or focus loss it hovers exactly when it is hot, and it reports exactly when
    /// it stops hovering.
    pub fn handle_event(&mut self, cx: &mut EventCx, event: &Event)
        ensures
            on_hover_lost_reaction(*old(self), *final(self), *old(cx), *final(cx), *event),
            final(self).element == old(self).element,

    {
        let relevant = match event {
            Event::Mouse(_) => true,
            Event::FocusLost => true,
            _ => false,
        };
        if relevant {
            if cx.is_hot() && !self.is_hovering {
                self.is_hovering = true;
            } else if !cx.is_hot() && self.is_hovering {
                self.is_hovering = false;
                cx.add_message(Message::new(clone_id_path(&self.id_path), MessageBody::Unit));
            }
        }
    }
}

impl<W: Widget> Widget for OnHoverLost<W> {
    open spec fn lifecycle_spec(old_w: Self, new_w: Self, old_cx: LifeCycleCx, new_cx: LifeCycleCx, event: LifeCycle) -> bool {
        &&& (new_w.id_path == old_w.id_path)
        &&& (new_w.is_hovering == old_w.is_hovering)
        &&& (pod_lifecycle_post(old_w.element, new_w.element, old_cx, new_cx, event))
    }

    open spec fn paint_spec(old_w: Self, new_w: Self, old_cx: PaintCx, new_cx: PaintCx) -> bool {
        &&& (new_w.id_path == old_w.id_path)
        &&& (new_w.is_hovering == old_w.is_hovering)
        &&& (pod_paint_post(old_w.element, new_w.element, old_cx, new_cx))
    }

    open spec fn layout_spec(old_w: Self, new_w: Self, old_cx: LayoutCx, new_cx: LayoutCx, bc: BoxConstraints, size: Size) -> bool {
        &&& (new_w.id_path == old_w.id_path)
        &&& (new_w.is_hovering == old_w.is_hovering)
        &&& (pod_layout_post(old_w.element, new_w.element, old_cx, new_cx, bc, size))
    }

    open spec fn event_spec(old_w: Self, new_w: Self, old_cx: EventCx, new_cx: EventCx, event: Event) -> bool {
        &&& (exists|mid: EventCx|
                #![auto]
                pod_event_post(old_w.element, new_w.element, old_cx, mid, event)
                    && on_hover_lost_reaction(old_w, new_w, mid, new_cx, event))
    }

    fn paint(&mut self, cx: &mut PaintCx)
    {
        self.element.paint(cx);
    }

    fn layout(&mut self, cx: &mut LayoutCx, bc: &BoxConstraints) -> (size: Size)
    {
        self.element.layout(cx, bc)
    }

    fn lifecycle(&mut self, cx: &mut LifeCycleCx, event: &LifeCycle)
    {
        self.element.lifecycle(cx, event);
    }

    fn event(&mut self, cx: &mut EventCx, event: &Event)
    {
        self.element.event(cx, event);
        let ghost mid = *cx;
        self.handle_event(cx, event);
        assert(pod_event_post(old(self).element, self.element, *old(cx), mid, *event)
            && on_hover_lost_reaction(*old(self), *self, mid, *cx, *event));
    }
}

/// A widget that paints its element with `style` on top while the mouse is over it.
pub struct StyleOnHover<W> {
    pub element: Pod<W>,
    pub is_hovering: bool,
    pub style: Style,
}

/// The reaction of a [`StyleOnHover`] to an event after its element saw it (see
/// [`StyleOnHover::handle_event`]).
pub open spec fn style_on_hover_reaction<W>(old_w: StyleOnHover<W>, new_w: StyleOnHover<W>, old_cx: EventCx, new_cx: EventCx) -> bool {
    &&& reaction_keeps(old_cx, new_cx)
    &&& new_cx.cx_state == old_cx.cx_state
    &&& new_w.style == old_w.style
    &&& new_w.is_hovering == hot_bit(old_cx.widget_state.flags)
    &&& new_cx.widget_state.flags.bits == (if new_w.is_hovering
        != old_w.is_hovering {
        old_cx.widget_state.flags.bits | 0x8
    } else {
        old_cx.widget_state.flags.bits
    })
}

impl<W: Widget> StyleOnHover<W> {
    /// Wraps `element`, styled with `style` while hovered.
    pub fn new(element: W, style: Style) -> (r: Self)
        ensures
            r.element.state == initial_widget_state(),
            r.element.widget == element,
            r.style == style,
            !r.is_hovering,
    {
        StyleOnHover { element: Pod::new(element), style, is_hovering: false }
    }

    /// The widget's own reaction to an event (after its element saw it): it hovers
    /// exactly when it is hot, and requests a repaint whenever that changes.
    pub fn handle_event(&mut self, cx: &mut EventCx)
        ensures
            style_on_hover_reaction(*old(self), *final(self), *old(cx), *final(cx)),
            final(self).element == old(self).element,

    {
        proof {
            lemma_flag_bits(cx.widget_state.flags.bits);
        }
        if cx.is_hot() && !self.is_hovering {
            cx.request_paint();
            self.is_hovering = true;
        } else if !cx.is_hot() && self.is_hovering {
            cx.request_paint();
            self.is_hovering = false;
        }
    }

    /// The style that the element is painted with: `style` on top of `override_style`
    /// while hot, else `override_style`.
    pub fn paint_style(&self, cx: &PaintCx) -> (r: Style)
        ensures
            r == (if hot_bit(cx.widget_state.flags) {
                patched(self.style, cx.override_style)
            } else {
                cx.override_style
            }),
    {
        if cx.is_hot() {
            self.style.patch(cx.override_style)
        } else {
            cx.override_style
        }
    }
}

impl<W: Widget> Widget for StyleOnHover<W> {
    open spec fn lifecycle_spec(old_w: Self, new_w: Self, old_cx: LifeCycleCx, new_cx: LifeCycleCx, event: LifeCycle) -> bool {
        &&& (new_w.is_hovering == old_w.is_hovering)
        &&& (new_w.style == old_w.style)
        &&& (pod_lifecycle_post(old_w.element, new_w.element, old_cx, new_cx, event))
    }

    open spec fn paint_spec(old_w: Self, new_w: Self, old_cx: PaintCx, new_cx: PaintCx) -> bool {
        &&& (new_w.is_hovering == old_w.is_hovering)
        &&& (new_w.style == old_w.style)
        &&& (new_cx.override_style == (if hot_bit(old_cx.widget_state.flags) {
                patched(old_w.style, old_cx.override_style)
            } else {
                old_cx.override_style
            }))
        &&& (pod_paint_post(
                old_w.element,
                new_w.element,
                PaintCx { override_style: new_cx.override_style, ..old_cx },
                new_cx,
            ))
    }

    open spec fn layout_spec(old_w: Self, new_w: Self, old_cx: LayoutCx, new_cx: LayoutCx, bc: BoxConstraints, size: Size) -> bool {
        &&& (new_w.is_hovering == old_w.is_hovering)
        &&& (new_w.style == old_w.style)
        &&& (pod_layout_post(old_w.element, new_w.element, old_cx, new_cx, bc, size))
    }

    open spec fn event_spec(old_w: Self, new_w: Self, old_cx: EventCx, new_cx: EventCx, event: Event) -> bool {
        &&& (exists|mid: EventCx|
                #![auto]
                pod_event_post(old_w.element, new_w.element, old_cx, mid, event)
                    && style_on_hover_reaction(old_w, new_w, mid, new_cx))
    }

    fn paint(&mut self, cx: &mut PaintCx)
    {
        cx.override_style = self.paint_style(cx);
        self.element.paint(cx);
    }

    fn layout(&mut self, cx: &mut LayoutCx, bc: &BoxConstraints) -> (size: Size)
    {
        self.element.layout(cx, bc)
    }

    fn lifecycle(&mut self, cx: &mut LifeCycleCx, event: &LifeCycle)
    {
        self.element.lifecycle(cx, event);
    }

    fn event(&mut self, cx: &mut EventCx, event: &Event)
    {
        self.element.event(cx, event);
        let ghost mid = *cx;
        self.handle_event(cx);
        assert(pod_event_post(old(self).element, self.element, *old(cx), mid, *event)
            && style_on_hover_reaction(*old(self), *self, mid, *cx));
    }
}

/// A widget that paints its element with `style` on top while it is pressed (active).
pub struct StyleOnPressed<W> {
    pub element: Pod<W>,
    pub style: Style,
}

/// The reaction of a [`StyleOnPressed`] to an event after its element saw it (see
/// [`StyleOnPressed::handle_event`]).
pub open spec fn style_on_pressed_reaction<W>(old_w: StyleOnPressed<W>, new_w: StyleOnPressed<W>, old_cx: EventCx, new_cx: EventCx, event: Event) -> bool {
    &&& reaction_keeps(old_cx, new_cx)
    &&& new_cx.cx_state == old_cx.cx_state
    &&& ({
        let hot = hot_bit(old_cx.widget_state.flags);
        let new_active = active_bit(new_cx.widget_state.flags);
        let repaint = new_cx.widget_state.flags.bits & 0x8 != 0;
        match event {
            Event::Mouse(e) => match e.kind {
                MouseEventKind::Down(MouseButton::Left) => new_active == hot && repaint,
                MouseEventKind::Up(MouseButton::Left) => !new_active && repaint,
                MouseEventKind::Moved => !new_active && repaint,
                _ => new_cx == old_cx,
            },
            Event::FocusLost => !new_active && repaint,
            _ => new_cx == old_cx,
        }
    })
}

impl<W: Widget> StyleOnPressed<W> {
    /// Wraps `element`, styled with `style` while pressed.
    pub fn new(element: W, style: Style) -> (r: Self)
        ensures
            r.element.state == initial_widget_state(),
            r.element.widget == element,
            r.style == style,
    {
        StyleOnPressed { element: Pod::new(element), style }
    }

    /// The widget's own reaction to `event` (after its element saw it): a press of the
    /// left button activates it exactly when it is hot; a release of the left button, a
    /// motion of the mouse or focus loss deactivates it; each of these requests a repaint.
    pub fn handle_event(&mut self, cx: &mut EventCx, event: &Event)
        ensures
            style_on_pressed_reaction(*old(self), *final(self), *old(cx), *final(cx), *event),
            final(self).element == old(self).element,

    {
        proof {
            lemma_flag_bits(cx.widget_state.flags.bits);
        }
        let (press, release) = match event {
            Event::Mouse(mouse_event) => match mouse_event.kind {
                MouseEventKind::Down(MouseButton::Left) => (true, false),
                MouseEventKind::Up(MouseButton::Left) => (false, true),
                MouseEventKind::Moved => (false, true),
                _ => (false, false),
            },
            Event::FocusLost => (false, true),
            _ => (false, false),
        };
        if press {
            cx.request_paint();
            proof {
                lemma_flag_bits(cx.widget_state.flags.bits);
            }
            let hot = cx.is_hot();
            cx.set_active(hot);
        } else if release {
            cx.request_paint();
            proof {
                lemma_flag_bits(cx.widget_state.flags.bits);
            }
            cx.set_active(false);
        }
        proof {
            lemma_flag_bits(cx.widget_state.flags.bits);
        }
    }

    /// The style that the element is painted with: `style` on top of `override_style`
    /// while active, else `override_style`.
    pub fn paint_style(&self, cx: &PaintCx) -> (r: Style)
        ensures
            r == (if active_bit(cx.widget_state.flags) {
                patched(self.style, cx.override_style)
            } else {
                cx.override_style
            }),
    {
        if cx.is_active() {
            self.style.patch(cx.override_style)
        } else {
            cx.override_style
        }
    }
}

impl<W: Widget> Widget for StyleOnPressed<W> {
    open spec fn lifecycle_spec(old_w: Self, new_w: Self, old_cx: LifeCycleCx, new_cx: LifeCycleCx, event: LifeCycle) -> bool {
        &&& (new_w.style == old_w.style)
        &&& (pod_lifecycle_post(old_w.element, new_w.element, old_cx, new_cx, event))
    }

    open spec fn paint_spec(old_w: Self, new_w: Self, old_cx: PaintCx, new_cx: PaintCx) -> bool {
        &&& (new_w.style == old_w.style)
        &&& (new_cx.override_style == (if active_bit(old_cx.widget_state.flags) {
                patched(old_w.style, old_cx.override_style)
            } else {
                old_cx.override_style
            }))
        &&& (pod_paint_post(
                old_w.element,
                new_w.element,
                PaintCx { override_style: new_cx.override_style, ..old_cx },
                new_cx,
            ))
    }

    open spec fn layout_spec(old_w: Self, new_w: Self, old_cx: LayoutCx, new_cx: LayoutCx, bc: BoxConstraints, size: Size) -> bool {
        &&& (new_w.style == old_w.style)
        &&& (pod_layout_post(old_w.element, new_w.element, old_cx, new_cx, bc, size))
    }

    open spec fn event_spec(old_w: Self, new_w: Self, old_cx: EventCx, new_cx: EventCx, event: Event) -> bool {
        &&& (exists|mid: EventCx|
                #![auto]
                pod_event_post(old_w.element, new_w.element, old_cx, mid, event)
                    && style_on_pressed_reaction(old_w, new_w, mid, new_cx, event))
    }

    fn paint(&mut self, cx: &mut PaintCx)
    {
        cx.override_style = self.paint_style(cx);
        self.element.paint(cx);
    }

    fn layout(&mut self, cx: &mut LayoutCx, bc: &BoxConstraints) -> (size: Size)
    {
        self.element.layout(cx, bc)
    }

    fn lifecycle(&mut self, cx: &mut LifeCycleCx, event: &LifeCycle)
    {
        self.element.lifecycle(cx, event);
    }

    fn event(&mut self, cx: &mut EventCx, event: &Event)
    {
        self.element.event(cx, event);
        let ghost mid = *cx;
        self.handle_event(cx, event);
        assert(pod_event_post(old(self).element, self.element, *old(cx), mid, *event)
            && style_on_pressed_reaction(*old(self), *self, mid, *cx, *event));
    }
}

} // verus!
