//! A widget that shows a vertically scrollable window onto its child.
use vstd::prelude::*;

use crate::geometry::{floor_sub, BoxConstraints, Rect, Size, UNBOUNDED};
use crate::widget::events::{Event, LifeCycle, MouseEventKind, RawMouseEvent};
use crate::widget::pod::{
    initial_widget_state, lemma_flag_bits, pod_event_post, pod_layout_post, pod_lifecycle_post, pod_paint_post,
    DrawCommand,
    EventCx, LayoutCx, LifeCycleCx, PaintCx, Pod, Widget,
};

verus! {

/// Shows its child (laid out with unbounded height) scrolled up by `offset` rows; the
/// mouse wheel scrolls by `scroll_speed` rows.
pub struct ScrollView<W> {
    pub child: Pod<W>,
    pub offset: u16,
    pub scroll_speed: u16,
}

/// The largest offset: how much taller the child is than the viewport.
pub open spec fn max_offset(child_height: u16, viewport_height: u16) -> u16 {
    floor_sub(child_height, viewport_height)
}

/// The offset after scrolling `down` (or up) by `speed` from `offset`, kept between 0
/// and `max`.
pub open spec fn scrolled(offset: u16, speed: u16, down: bool, max: u16) -> u16 {
    let moved: int = if down {
        offset + speed
    } else if offset < speed {
        0
    } else {
        offset - speed
    };
    if moved > max {
        max
    } else {
        moved as u16
    }
}

/// The paint instruction lies in `r` (a text run with its whole width).
pub open spec fn cmd_within_rect(c: DrawCommand, r: Rect) -> bool {
    match c {
        DrawCommand::Symbol { x, y, .. } => r.spec_contains(crate::geometry::Point { x, y }),
        DrawCommand::Text { x, y, max_width, .. } => {
            &&& r.spec_contains(crate::geometry::Point { x, y })
            &&& x + max_width <= r.x + r.width
        },
    }
}

/// How a scroll view reacts to a wheel event that its child did not handle (see
/// [`ScrollView::handle_scroll`]).
pub open spec fn scroll_reaction<W>(old_v: ScrollView<W>, new_v: ScrollView<W>, old_cx: EventCx, new_cx: EventCx, event: Event) -> bool {
({
        let wheel = match event {
            Event::Mouse(e) => match e.kind {
                MouseEventKind::ScrollDown => Some(true),
                MouseEventKind::ScrollUp => Some(false),
                _ => None,
            },
            _ => None,
        };
        if !old_cx.is_handled && wheel is Some {
            let new_offset = scrolled(
                old_v.offset,
                old_v.scroll_speed,
                wheel->0,
                max_offset(
                    old_v.child.state.size.height,
                    old_cx.widget_state.size.height,
                ),
            );
            &&& new_v.offset == new_offset
            &&& if new_offset != old_v.offset {
                &&& new_cx.is_handled
                &&& new_cx.widget_state.flags.bits == old_cx.widget_state.flags.bits | 0x8
            } else {
                new_cx == old_cx
            }
        } else {
            new_v.offset == old_v.offset && new_cx == old_cx
        }
    })
}

/// The event that the child of a scroll view gets: a mouse event moves by the offset
/// (as far as an `i16` column allows; the column is the coordinate that moves).
pub open spec fn scrolled_event(event: Event, offset: u16) -> Event {
    match event {
        Event::Mouse(m) => Event::Mouse(
            RawMouseEvent {
                column: m.column.wrapping_add(
                    if offset > 32767 {
                        32767i16
                    } else {
                        offset as i16
                    },
                ),
                ..m
            },
        ),
        _ => event,
    }
}

/// The rectangle of a widget in window coordinates.
pub open spec fn view_rect(s: crate::widget::pod::WidgetState) -> Rect {
    Rect {
        x: s.parent_window_origin.spec_translate(s.origin).x,
        y: s.parent_window_origin.spec_translate(s.origin).y,
        width: s.size.width,
        height: s.size.height,
    }
}

/// The paint instruction `c` of the child moved up by `offset` rows, kept when it
/// falls in `rect` (a run of text cut to the room left in `rect`), else dropped.
pub open spec fn scrolled_command(c: DrawCommand, offset: u16, rect: Rect) -> Seq<DrawCommand> {
    match c {
        DrawCommand::Symbol { x, y, symbol, style } => {
            let p = crate::geometry::Point { x, y: crate::geometry::clamp_i32(y - offset) };
            if rect.spec_contains(p) {
                seq![DrawCommand::Symbol { x: p.x, y: p.y, symbol, style }]
            } else {
                Seq::empty()
            }
        },
        DrawCommand::Text { x, y, text, max_width, style } => {
            let p = crate::geometry::Point { x, y: crate::geometry::clamp_i32(y - offset) };
            let room = (rect.x + rect.width - x) as usize;
            if rect.spec_contains(p) {
                seq![
                    DrawCommand::Text {
                        x: p.x,
                        y: p.y,
                        text,
                        max_width: if max_width < room {
                            max_width
                        } else {
                            room
                        },
                        style,
                    },
                ]
            } else {
                Seq::empty()
            }
        },
    }
}

/// The paint instructions of the child, in order, each moved up by `offset` rows and
/// kept when it falls in `rect` (see [`scrolled_command`]).
pub open spec fn scrolled_commands(cs: Seq<DrawCommand>, offset: u16, rect: Rect) -> Seq<DrawCommand>
    decreases cs.len(),
{
    if cs.len() == 0 {
        Seq::empty()
    } else {
        scrolled_commands(cs.drop_last(), offset, rect) + scrolled_command(cs.last(), offset, rect)
    }
}

/// The constraints the child of a scroll view is laid out with: any size up to the
/// available width and without a bound on the height.
pub open spec fn child_constraints(bc: BoxConstraints) -> BoxConstraints {
    BoxConstraints {
        min: Size { width: 0, height: 0 },
        max: Size { width: bc.max.width, height: UNBOUNDED },
    }
}

impl<W: Widget> ScrollView<W> {
    /// A scroll view at the top of `child`, scrolling one row per wheel step.
    pub fn new(child: W) -> (r: Self)
        ensures
            r.child.state == initial_widget_state(),
            r.child.widget == child,
            r.offset == 0,
            r.scroll_speed == 1,
    {
        ScrollView { child: Pod::new(child), offset: 0, scroll_speed: 1 }
    }

    /// The child's pod.
    pub fn child_mut(&mut self) -> (r: &mut Pod<W>)
        ensures
            *r == old(self).child,
            final(self).child == *final(r),
            final(self).offset == old(self).offset,
            final(self).scroll_speed == old(self).scroll_speed,
    {
        &mut self.child
    }

    /// Scrolls on a wheel event that no child handled: the offset moves by the scroll
    /// speed, kept between 0 and how much taller the child is than the view; when it
    /// moves, the event counts as handled and the view asks to be repainted.
    pub fn handle_scroll(&mut self, cx: &mut EventCx, event: &Event)
        ensures
            final(self).child == old(self).child,
            final(self).scroll_speed == old(self).scroll_speed,
            crate::widget::pod::keeps_state(old(cx).widget_state, final(cx).widget_state),
            final(cx).cx_state == old(cx).cx_state,
            scroll_reaction(*old(self), *final(self), *old(cx), *final(cx), *event),

    {
        if cx.is_handled() {
            return ;
        }
        let down = match event {
            Event::Mouse(mouse_event) => match mouse_event.kind {
                MouseEventKind::ScrollDown => Some(true),
                MouseEventKind::ScrollUp => Some(false),
                _ => None,
            },
            _ => None,
        };
        if let Some(down) = down {
            let max = self.child.size().height.saturating_sub(cx.size().height);
            let moved = if down {
                self.offset as u32 + self.scroll_speed as u32
            } else {
                self.offset.saturating_sub(self.scroll_speed) as u32
            };
            let new_offset: u16 = if moved > max as u32 {
                max
            } else {
                moved as u16
            };
            if new_offset != self.offset {
                self.offset = new_offset;
                cx.set_handled(true);
                proof {
                    lemma_flag_bits(cx.widget_state.flags.bits);
                }
                cx.request_paint();
            }
        }
    }

    /// Lays out the child with the available width and unbounded height (see
    /// [`child_constraints`]), takes the child's size limited by `bc`, keeps the offset
    /// within the new bounds, and asks for a paint pass.
    pub fn layout_child(&mut self, cx: &mut LayoutCx, bc: &BoxConstraints) -> (r: Size)
        ensures
            r.width == (if final(self).child.state.size.width < bc.max.width {
                final(self).child.state.size.width
            } else {
                bc.max.width
            }),
            r.height == (if final(self).child.state.size.height < bc.max.height {
                final(self).child.state.size.height
            } else {
                bc.max.height
            }),
            final(self).offset == (if max_offset(final(self).child.state.size.height, r.height)
                < old(self).offset {
                max_offset(final(self).child.state.size.height, r.height)
            } else {
                old(self).offset
            }),
            final(self).offset <= max_offset(final(self).child.state.size.height, r.height),
            final(self).scroll_speed == old(self).scroll_speed,
            crate::widget::pod::keeps_state(old(cx).widget_state, final(cx).widget_state),
            final(cx).widget_state.flags.bits & 0x8 != 0,
            exists|c0: LayoutCx|
                #[trigger] pod_layout_post(
                    old(self).child,
                    final(self).child,
                    c0,
                    *final(cx),
                    child_constraints(*bc),
                    final(self).child.state.size,
                ) && c0.cx_state == old(cx).cx_state,
    {
        proof {
            lemma_flag_bits(cx.widget_state.flags.bits);
        }
        cx.request_paint();
        let ghost c0 = *cx;
        let cbc = BoxConstraints::new(Size::new(0, 0), Size::new(bc.max.width, UNBOUNDED));
        let child_size = self.child.layout(cx, &cbc);
        proof {
            lemma_flag_bits(c0.widget_state.flags.bits);
            crate::widget::pod::lemma_merge_bits(c0.widget_state.flags.bits, self.child.state.flags.bits);
        }
        assert(pod_layout_post(old(self).child, self.child, c0, *cx, child_constraints(*bc), self.child.state.size)
            && c0.cx_state == old(cx).cx_state);
        let size = Size::new(
            child_size.width.min(bc.max.width),
            child_size.height.min(bc.max.height),
        );
        let max = child_size.height.saturating_sub(size.height);
        if max < self.offset {
            self.offset = max;
        }
        size
    }

    /// Paints the child scrolled up by the offset, keeping only what falls in the view:
    /// the child paints into an empty list of instructions, and each of them, moved up
    /// by the offset, is kept when it falls in the view (see [`scrolled_commands`]).
    pub fn paint_child(&mut self, cx: &mut PaintCx)
        ensures
            final(cx).commands@.len() >= old(cx).commands@.len(),
            final(cx).commands@.subrange(0, old(cx).commands@.len() as int)
                == old(cx).commands@,
            forall|i: int|
                old(cx).commands@.len() <= i < final(cx).commands@.len() ==> cmd_within_rect(
                    #[trigger] final(cx).commands@[i],
                    view_rect(old(cx).widget_state),
                ),
            final(cx).widget_state == old(cx).widget_state,
            final(self).offset == old(self).offset,
            final(self).scroll_speed == old(self).scroll_speed,
            exists|mid: PaintCx, after: PaintCx|
                #![auto]
                mid.commands@ == Seq::<DrawCommand>::empty() && mid.widget_state == old(
                    cx,
                ).widget_state && mid.override_style == old(cx).override_style && mid.cx_state
                    == old(cx).cx_state && pod_paint_post(
                    old(self).child,
                    final(self).child,
                    mid,
                    after,
                ) && final(cx).cx_state == after.cx_state && final(cx).override_style
                    == after.override_style && final(cx).commands@ == old(cx).commands@
                    + scrolled_commands(
                    after.commands@,
                    old(self).offset,
                    view_rect(old(cx).widget_state),
                ),
    {
        let rect = cx.rect();
        let mut saved: Vec<DrawCommand> = Vec::new();
        core::mem::swap(&mut saved, &mut cx.commands);
        let ghost mid = *cx;
        self.child.paint(cx);
        let ghost after = *cx;
        let mut child_commands: Vec<DrawCommand> = Vec::new();
        core::mem::swap(&mut child_commands, &mut cx.commands);
        cx.commands = saved;
        let ghost orig = child_commands@;
        let ghost n = orig.len();
        let mut reversed: Vec<DrawCommand> = Vec::new();
        assert(orig.subrange(n as int, n as int).reverse() =~= reversed@);
        assert(orig.subrange(0, n as int) =~= orig);
        while child_commands.len() > 0
            invariant
                cx.widget_state == old(cx).widget_state,
                cx.commands@ == old(cx).commands@,
                cx.cx_state == after.cx_state,
                cx.override_style == after.override_style,
                child_commands@.len() <= n,
                child_commands@ == orig.subrange(0, child_commands@.len() as int),
                reversed@ == orig.subrange(child_commands@.len() as int, n as int).reverse(),
                n == orig.len(),
            decreases child_commands.len(),
        {
            let ghost k = child_commands@.len();
            match child_commands.pop() {
                Some(c) => {
                    reversed.push(c);
                    assert(reversed@ =~= orig.subrange(k - 1, n as int).reverse());
                },
                None => {},
            }
        }
        assert(orig.subrange(0, 0) =~= Seq::<DrawCommand>::empty());
        let ghost start = cx.commands@.len();
        assert(cx.commands@ =~= old(cx).commands@ + scrolled_commands(orig.subrange(0, 0), self.offset, rect));
        assert(cx.commands@.subrange(0, start as int) =~= old(cx).commands@);
        while reversed.len() > 0
            invariant
                cx.commands@.len() >= start,
                cx.widget_state == old(cx).widget_state,
                start == old(cx).commands@.len(),
                cx.commands@.subrange(0, start as int) == old(cx).commands@,
                rect == view_rect(old(cx).widget_state),
                forall|i: int|
                    start <= i < cx.commands@.len() ==> cmd_within_rect(
                        #[trigger] cx.commands@[i],
                        rect,
                    ),
                n == orig.len(),
                reversed@.len() <= n,
                reversed@ == orig.subrange(n - reversed@.len(), n as int).reverse(),
                cx.commands@ == old(cx).commands@ + scrolled_commands(
                    orig.subrange(0, n - reversed@.len()),
                    self.offset,
                    rect,
                ),
                self.offset == old(self).offset,
                cx.cx_state == after.cx_state,
                cx.override_style == after.override_style,
            decreases reversed.len(),
        {
            let ghost j = n - reversed@.len();
            let ghost before = cx.commands@;
            assert(reversed@.last() == orig[j]);
            let c = reversed.pop();
            assert(reversed@ =~= orig.subrange(j + 1, n as int).reverse());
            assert(orig.subrange(0, j + 1).drop_last() =~= orig.subrange(0, j));
            match c {
                Some(DrawCommand::Symbol { x, y, symbol, style }) => {
                    let p = crate::geometry::Point::new(x, crate::geometry::sat_sub_i32(y, self.offset as i32));
                    if rect.contains(p) {
                        cx.commands.push(DrawCommand::Symbol { x: p.x, y: p.y, symbol, style });
                        assert(cx.commands@.subrange(0, start as int) =~= old(cx).commands@);
                    }
                    assert(cx.commands@ =~= before + scrolled_command(orig[j], self.offset, rect));
                },
                Some(DrawCommand::Text { x, y, text, max_width, style }) => {
                    let p = crate::geometry::Point::new(x, crate::geometry::sat_sub_i32(y, self.offset as i32));
                    if rect.contains(p) {
                        let room = (rect.x as i64 + rect.width as i64 - x as i64) as usize;
                        let width = if max_width < room {
                            max_width
                        } else {
                            room
                        };
                        cx.commands.push(DrawCommand::Text { x: p.x, y: p.y, text, max_width: width, style });
                        assert(cx.commands@.subrange(0, start as int) =~= old(cx).commands@);
                    }
                    assert(cx.commands@ =~= before + scrolled_command(orig[j], self.offset, rect));
                },
                None => {},
            }
            assert(cx.commands@ =~= old(cx).commands@ + scrolled_commands(orig.subrange(0, j + 1), self.offset, rect));
        }
        assert(orig.subrange(0, n as int) =~= orig);
        assert(after.commands@ == orig);
        assert(mid.commands@ == Seq::<DrawCommand>::empty() && mid.widget_state == old(cx).widget_state
            && mid.override_style == old(cx).override_style && mid.cx_state == old(cx).cx_state
            && pod_paint_post(old(self).child, self.child, mid, after) && cx.cx_state
            == after.cx_state && cx.override_style == after.override_style && cx.commands@
            == old(cx).commands@ + scrolled_commands(after.commands@, old(self).offset, view_rect(old(cx).widget_state)));
    }
}

impl<W: Widget> Widget for ScrollView<W> {
    open spec fn lifecycle_spec(old_w: Self, new_w: Self, old_cx: LifeCycleCx, new_cx: LifeCycleCx, event: LifeCycle) -> bool {
        &&& (new_w.offset == old_w.offset)
        &&& (new_w.scroll_speed == old_w.scroll_speed)
        &&& (pod_lifecycle_post(old_w.child, new_w.child, old_cx, new_cx, event))
    }

    open spec fn event_spec(old_w: Self, new_w: Self, old_cx: EventCx, new_cx: EventCx, event: Event) -> bool {
        &&& (new_w.scroll_speed == old_w.scroll_speed)
        &&& (exists|mid: EventCx|
                #![auto]
                pod_event_post(
                    old_w.child,
                    new_w.child,
                    old_cx,
                    mid,
                    scrolled_event(event, old_w.offset),
                ) && scroll_reaction(
                    ScrollView { child: new_w.child, ..old_w },
                    new_w,
                    mid,
                    new_cx,
                    event,
                ))
    }

    open spec fn layout_spec(old_w: Self, new_w: Self, old_cx: LayoutCx, new_cx: LayoutCx, bc: BoxConstraints, size: Size) -> bool {
        &&& (size.width == (if new_w.child.state.size.width < bc.max.width {
                new_w.child.state.size.width
            } else {
                bc.max.width
            }))
        &&& (size.height == (if new_w.child.state.size.height < bc.max.height {
                new_w.child.state.size.height
            } else {
                bc.max.height
            }))
        &&& (new_w.offset == (if max_offset(new_w.child.state.size.height, size.height)
                < old_w.offset {
                max_offset(new_w.child.state.size.height, size.height)
            } else {
                old_w.offset
            }))
        &&& (new_w.scroll_speed == old_w.scroll_speed)
        &&& new_cx.widget_state.flags.bits & 0x8 != 0
        &&& (exists|c0: LayoutCx|
            #[trigger] pod_layout_post(
                old_w.child,
                new_w.child,
                c0,
                new_cx,
                child_constraints(bc),
                new_w.child.state.size,
            ) && c0.cx_state == old_cx.cx_state)
    }

    open spec fn paint_spec(old_w: Self, new_w: Self, old_cx: PaintCx, new_cx: PaintCx) -> bool {
        &&& (new_w.offset == old_w.offset)
        &&& (new_w.scroll_speed == old_w.scroll_speed)
        &&& (new_cx.widget_state == old_cx.widget_state)
        &&& (exists|mid: PaintCx, after: PaintCx|
                #![auto]
                mid.commands@ == Seq::<DrawCommand>::empty() && mid.widget_state == old_cx.widget_state && mid.override_style == old_cx.override_style && mid.cx_state
                    == old_cx.cx_state && pod_paint_post(
                    old_w.child,
                    new_w.child,
                    mid,
                    after,
                ) && new_cx.cx_state == after.cx_state && new_cx.override_style
                    == after.override_style && new_cx.commands@ == old_cx.commands@
                    + scrolled_commands(
                    after.commands@,
                    old_w.offset,
                    view_rect(old_cx.widget_state),
                ))
    }

    /// Hands the event to the child (mouse events moved by the offset), then scrolls on
    /// a wheel event that the child did not handle.
    fn event(&mut self, cx: &mut EventCx, event: &Event)
    {
        match event {
            Event::Mouse(mouse_event) => {
                let shift: i16 = if self.offset > 32767 {
                    32767
                } else {
                    self.offset as i16
                };
                let child_event = Event::Mouse(
                    RawMouseEvent { column: mouse_event.column.wrapping_add(shift), ..*mouse_event },
                );
                self.child.event(cx, &child_event);
            },
            _ => {
                self.child.event(cx, event);
            },
        }
        let ghost mid = *cx;
        let ghost before = *self;
        self.handle_scroll(cx, event);
        assert(before == ScrollView { child: self.child, ..*old(self) });
        assert(pod_event_post(old(self).child, self.child, *old(cx), mid, scrolled_event(*event, old(self).offset))
            && scroll_reaction(ScrollView { child: self.child, ..*old(self) }, *self, mid, *cx, *event));
    }

    /// Hands the lifecycle notification to the child.
    fn lifecycle(&mut self, cx: &mut LifeCycleCx, event: &LifeCycle)
    {
        self.child.lifecycle(cx, event);
    }

    /// Lays the child out (see [`ScrollView::layout_child`]).
    fn layout(&mut self, cx: &mut LayoutCx, bc: &BoxConstraints) -> (size: Size)
    {
        self.layout_child(cx, bc)
    }

    /// Paints the scrolled child (see [`ScrollView::paint_child`]).
    fn paint(&mut self, cx: &mut PaintCx)
    {
        self.paint_child(cx);
    }
}

} // verus!
