//! A widget that keeps a margin around its content on some of its sides.
use vstd::prelude::*;

use crate::flags::{ChangeFlags, Position};
use crate::geometry::{extent_add, BoxConstraints, Point, Size, UNBOUNDED};
use crate::widget::events::{Event, LifeCycle};
use crate::widget::pod::{
    initial_widget_state, pod_event_post, pod_layout_post, pod_lifecycle_post, pod_paint_post, EventCx, LayoutCx,
    LifeCycleCx, PaintCx, Pod, Widget,
};

verus! {

/// Keeps `amount` cells free on each side in `position` around its content.
pub struct Margin<W> {
    pub content: Pod<W>,
    pub amount: u16,
    pub position: Position,
}

/// The margin on the side `side`: `amount` when `position` contains the side, else 0.
pub open spec fn side_margin(position: Position, amount: u16, side: u8) -> u16 {
    if position.bits & side == side {
        amount
    } else {
        0
    }
}

/// The space that the margins take: left plus right, top plus bottom.
pub open spec fn margin_size(position: Position, amount: u16) -> Size {
    Size {
        width: extent_add(side_margin(position, amount, 8), side_margin(position, amount, 2)),
        height: extent_add(side_margin(position, amount, 1), side_margin(position, amount, 4)),
    }
}

/// Law: the margins add to the content's height the top margin (`amount` when the top
/// side is chosen, else 0) plus the bottom margin (likewise), and to its width the left
/// margin plus the right margin; a sum that does not fit stays at [`UNBOUNDED`]. The
/// content starts after the left and the top margin.
pub proof fn lemma_margin_sides(position: Position, amount: u16)
    ensures
        ({
            let top: int = if position.bits & 0x1 != 0 { amount as int } else { 0 };
            let bottom: int = if position.bits & 0x4 != 0 { amount as int } else { 0 };
            margin_size(position, amount).height as int == if top + bottom > UNBOUNDED {
                UNBOUNDED as int
            } else {
                top + bottom
            }
        }),
        ({
            let left: int = if position.bits & 0x8 != 0 { amount as int } else { 0 };
            let right: int = if position.bits & 0x2 != 0 { amount as int } else { 0 };
            margin_size(position, amount).width as int == if left + right > UNBOUNDED {
                UNBOUNDED as int
            } else {
                left + right
            }
        }),
        side_margin(position, amount, 1) == (if position.bits & 0x1 != 0 { amount } else { 0 }),
        side_margin(position, amount, 8) == (if position.bits & 0x8 != 0 { amount } else { 0 }),
{
    let b = position.bits;
    assert((b & 1 == 1) == (b & 1 != 0) && (b & 2 == 2) == (b & 2 != 0) && (b & 4 == 4) == (b & 4
        != 0) && (b & 8 == 8) == (b & 8 != 0)) by (bit_vector);
}

impl<W: Widget> Margin<W> {
    /// Wraps `content` with `amount` cells of margin on the sides in `position`.
    pub fn new(content: W, position: Position, amount: u16) -> (r: Self)
        ensures
            r.content.state == initial_widget_state(),
            r.content.widget == content,
            r.amount == amount,
            r.position == position,
    {
        Margin { content: Pod::new(content), amount, position }
    }

    /// Sets the amount of margin; a change requires a new layout.
    pub fn set_amount(&mut self, amount: u16) -> (r: ChangeFlags)
        ensures
            final(self).amount == amount,
            final(self).position == old(self).position,
            final(self).content == old(self).content,
            r.bits == (if old(self).amount != amount {
                0x2u8
            } else {
                0u8
            }),
    {
        if self.amount != amount {
            self.amount = amount;
            ChangeFlags::layout()
        } else {
            ChangeFlags::empty()
        }
    }

    /// Sets the sides with margin; a change requires a new layout.
    pub fn set_position(&mut self, position: Position) -> (r: ChangeFlags)
        ensures
            final(self).position == position,
            final(self).amount == old(self).amount,
            final(self).content == old(self).content,
            r.bits == (if old(self).position != position {
                0x2u8
            } else {
                0u8
            }),
    {
        if self.position != position {
            self.position = position;
            ChangeFlags::layout()
        } else {
            ChangeFlags::empty()
        }
    }

    fn margin(&self, side: Position) -> (r: u16)
        requires
            side.bits == 1 || side.bits == 2 || side.bits == 4 || side.bits == 8,
        ensures
            r == side_margin(self.position, self.amount, side.bits),
    {
        if self.position.contains(side) {
            self.amount
        } else {
            0
        }
    }

    /// Lays out the content within `bc` shrunk by the margins, places it after the left
    /// and top margins, and takes the content's size plus the margins.
    pub fn layout_content(&mut self, cx: &mut LayoutCx, bc: &BoxConstraints) -> (r: Size)
        ensures
            final(self).amount == old(self).amount,
            final(self).position == old(self).position,
            final(self).content.state.origin == Point::new_spec(
                side_margin(old(self).position, old(self).amount, 8) as i32,
                side_margin(old(self).position, old(self).amount, 1) as i32,
            ),
            r == final(self).content.state.size.spec_add(
                margin_size(old(self).position, old(self).amount),
            ),
            crate::widget::pod::parent_keeps(old(cx).widget_state, final(cx).widget_state),
            exists|laid: Pod<W>, mid: LayoutCx|
                #[trigger] pod_layout_post(
                    old(self).content,
                    laid,
                    *old(cx),
                    mid,
                    bc.spec_shrink(margin_size(old(self).position, old(self).amount)),
                    final(self).content.state.size,
                ) && final(self).content.widget == laid.widget,
    {
        let margin_top = self.margin(Position::top());
        let margin_bottom = self.margin(Position::bottom());
        let margin_left = self.margin(Position::left());
        let margin_right = self.margin(Position::right());
        let margin = Size::new(
            margin_left.saturating_add(margin_right),
            margin_top.saturating_add(margin_bottom),
        );
        let inner_bc = bc.shrink(margin);
        let content_size = self.content.layout(cx, &inner_bc);
        let ghost laid = self.content;
        let ghost mid = *cx;
        self.content.set_origin(cx, Point::new(margin_left as i32, margin_top as i32));
        assert(pod_layout_post(old(self).content, laid, *old(cx), mid, inner_bc, self.content.state.size)
            && self.content.widget == laid.widget);
        content_size.add(margin)
    }
}

impl<W: Widget> Widget for Margin<W> {
    open spec fn lifecycle_spec(old_w: Self, new_w: Self, old_cx: LifeCycleCx, new_cx: LifeCycleCx, event: LifeCycle) -> bool {
        &&& (new_w.amount == old_w.amount)
        &&& (new_w.position == old_w.position)
        &&& (pod_lifecycle_post(old_w.content, new_w.content, old_cx, new_cx, event))
    }

    open spec fn paint_spec(old_w: Self, new_w: Self, old_cx: PaintCx, new_cx: PaintCx) -> bool {
        &&& (new_w.amount == old_w.amount)
        &&& (new_w.position == old_w.position)
        &&& (pod_paint_post(old_w.content, new_w.content, old_cx, new_cx))
    }

    open spec fn layout_spec(old_w: Self, new_w: Self, old_cx: LayoutCx, new_cx: LayoutCx, bc: BoxConstraints, size: Size) -> bool {
        &&& (new_w.amount == old_w.amount)
        &&& (new_w.position == old_w.position)
        &&& (new_w.content.state.origin == Point::new_spec(
                side_margin(old_w.position, old_w.amount, 8) as i32,
                side_margin(old_w.position, old_w.amount, 1) as i32,
            ))
        &&& (size == new_w.content.state.size.spec_add(
                margin_size(old_w.position, old_w.amount),
            ))
        &&& (exists|laid: Pod<W>, mid: LayoutCx|
            #[trigger] pod_layout_post(old_w.content, laid, old_cx, mid, bc.spec_shrink(margin_size(old_w.position, old_w.amount)), new_w.content.state.size)
                && new_w.content.widget == laid.widget)
    }

    open spec fn event_spec(old_w: Self, new_w: Self, old_cx: EventCx, new_cx: EventCx, event: Event) -> bool {
        &&& (new_w.amount == old_w.amount)
        &&& (new_w.position == old_w.position)
        &&& (pod_event_post(old_w.content, new_w.content, old_cx, new_cx, event))
    }

    /// Paints the content.
    fn paint(&mut self, cx: &mut PaintCx)
    {
        self.content.paint(cx);
    }

    /// Lays the content out inside the margins (see [`Margin::layout_content`]).
    fn layout(&mut self, cx: &mut LayoutCx, bc: &BoxConstraints) -> (size: Size)
    {
        self.layout_content(cx, bc)
    }

    /// Hands the event to the content.
    fn event(&mut self, cx: &mut EventCx, event: &Event)
    {
        self.content.event(cx, event);
    }

    /// Hands the lifecycle notification to the content.
    fn lifecycle(&mut self, cx: &mut LifeCycleCx, event: &LifeCycle)
    {
        self.content.lifecycle(cx, event);
    }
}

/// Law: a margin widget laid out takes its content's size plus, in height, the top and
/// the bottom margin, and in width, the left and the right margin (each `amount` when
/// its side is chosen, else 0; a size that does not fit stays at [`UNBOUNDED`]), and
/// puts its content after the left and the top margin.
pub proof fn lemma_margin_layout<W: Widget>(
    old_w: Margin<W>,
    new_w: Margin<W>,
    old_cx: LayoutCx,
    new_cx: LayoutCx,
    bc: BoxConstraints,
    size: Size,
)
    requires
        <Margin<W> as Widget>::layout_spec(old_w, new_w, old_cx, new_cx, bc, size),
    ensures
        ({
            let b = old_w.position.bits;
            let top: int = if b & 0x1 != 0 { old_w.amount as int } else { 0 };
            let bottom: int = if b & 0x4 != 0 { old_w.amount as int } else { 0 };
            let left: int = if b & 0x8 != 0 { old_w.amount as int } else { 0 };
            let right: int = if b & 0x2 != 0 { old_w.amount as int } else { 0 };
            let h = new_w.content.state.size.height + top + bottom;
            let w = new_w.content.state.size.width + left + right;
            &&& size.height as int == if h > UNBOUNDED { UNBOUNDED as int } else { h }
            &&& size.width as int == if w > UNBOUNDED { UNBOUNDED as int } else { w }
            &&& new_w.content.state.origin.x == left
            &&& new_w.content.state.origin.y == top
        }),
{
    lemma_margin_sides(old_w.position, old_w.amount);
}

} // verus!
