//! A widget that lines up its children along an axis.
use vstd::prelude::*;

use crate::geometry::{clamp_i32, Axis, BoxConstraints, Point, Size, UNBOUNDED};
use crate::widget::events::{Event, LifeCycle};
use crate::widget::pod::{
    parent_keeps, pod_event_post, pod_layout_post, pod_lifecycle_post, pod_paint_post, EventCx, LayoutCx,
    LifeCycleCx, PaintCx, Pod, Widget,
};

verus! {

/// Lines up its children along `axis`, with `spacing` cells between neighbours.
pub struct LinearLayout<W> {
    pub children: Vec<Pod<W>>,
    pub spacing: u16,
    pub axis: Axis,
}

/// Where child `i` starts along the axis: the extents of the children before it, each
/// followed by the spacing.
pub open spec fn offset<W>(children: Seq<Pod<W>>, axis: Axis, spacing: u16, i: int) -> int
    decreases i,
{
    if i <= 0 {
        0
    } else {
        offset(children, axis, spacing, i - 1) + axis.spec_major(children[i - 1].state.size)
            + spacing
    }
}

/// The extent of all children along the axis: up to the end of the last child.
pub open spec fn total_major<W>(children: Seq<Pod<W>>, axis: Axis, spacing: u16) -> int {
    if children.len() == 0 {
        0
    } else {
        offset(children, axis, spacing, children.len() - 1) + axis.spec_major(
            children[children.len() - 1].state.size,
        )
    }
}

/// The largest extent across the axis among the first `i` children.
pub open spec fn max_minor<W>(children: Seq<Pod<W>>, axis: Axis, i: int) -> u16
    decreases i,
{
    if i <= 0 {
        0
    } else {
        let m = max_minor(children, axis, i - 1);
        let c = axis.spec_minor(children[i - 1].state.size);
        if c > m {
            c
        } else {
            m
        }
    }
}

/// `v` as an extent (at most [`UNBOUNDED`]).
pub open spec fn int_extent(v: int) -> u16 {
    if v > UNBOUNDED {
        UNBOUNDED
    } else {
        v as u16
    }
}

proof fn lemma_offset_monotone<W>(children: Seq<Pod<W>>, axis: Axis, spacing: u16, i: int)
    ensures
        offset(children, axis, spacing, i) >= 0,
    decreases i,
{
    if i > 0 {
        lemma_offset_monotone(children, axis, spacing, i - 1);
    }
}

/// The constraints child `i` is laid out with: no minimum, the maximum across the axis
/// that `bc` allows, and along the axis what is left of `bc`'s maximum after the
/// children before it and their spacing (all of it when that maximum is unbounded).
pub open spec fn child_constraints<W>(bc: BoxConstraints, axis: Axis, children: Seq<Pod<W>>, spacing: u16, i: int) -> BoxConstraints {
    let major_max = axis.spec_major(bc.max);
    let used = offset(children, axis, spacing, i);
    let left: u16 = if major_max == UNBOUNDED {
        UNBOUNDED
    } else if used >= major_max {
        0
    } else {
        (major_max - used) as u16
    };
    axis.spec_with_major(BoxConstraints { min: Size::zero_spec(), max: bc.max }, 0, left)
}

/// Law: the first child starts at 0, and each next child starts where the one before it
/// ends plus the spacing; the children together reach to the end of the last one.
pub proof fn lemma_offsets_follow_children<W>(children: Seq<Pod<W>>, axis: Axis, spacing: u16, i: int)
    requires
        0 <= i < children.len(),
    ensures
        offset(children, axis, spacing, 0) == 0,
        offset(children, axis, spacing, i + 1) == offset(children, axis, spacing, i)
            + axis.spec_major(children[i].state.size) + spacing,
        total_major(children, axis, spacing) == offset(children, axis, spacing, children.len() - 1)
            + axis.spec_major(children[children.len() - 1].state.size),
{
}

/// Law: the extent across the axis of the first `i` children is the largest of theirs
/// (0 for none): no child is larger, and one of them is as large.
pub proof fn lemma_max_minor_is_largest<W>(children: Seq<Pod<W>>, axis: Axis, i: int)
    requires
        0 <= i <= children.len(),
    ensures
        forall|j: int| 0 <= j < i ==> axis.spec_minor(#[trigger] children[j].state.size) <= max_minor(children, axis, i),
        i == 0 ==> max_minor(children, axis, i) == 0,
        i > 0 ==> exists|j: int| 0 <= j < i && axis.spec_minor(#[trigger] children[j].state.size) == max_minor(children, axis, i),
    decreases i,
{
    if i > 0 {
        lemma_max_minor_is_largest(children, axis, i - 1);
        if i - 1 > 0 {
            let j = choose|j: int| 0 <= j < i - 1 && axis.spec_minor(#[trigger] children[j].state.size) == max_minor(children, axis, i - 1);
            assert(axis.spec_minor(children[j].state.size) == max_minor(children, axis, i - 1));
        }
        let k = i - 1;
        assert(axis.spec_minor(children[k].state.size) <= max_minor(children, axis, i));
    }
}

/// Law: each child of a linear layout may take along the axis at most what the
/// layout's maximum leaves after the children before it and their spacing (nothing
/// once they fill it), or any extent when the maximum is unbounded; across the axis it
/// may take the layout's maximum; it has no minimum.
pub proof fn lemma_child_constraints_fit<W>(bc: BoxConstraints, axis: Axis, children: Seq<Pod<W>>, spacing: u16, i: int)
    ensures
        ({
            let c = child_constraints(bc, axis, children, spacing, i);
            let major_max = axis.spec_major(bc.max);
            let before = offset(children, axis, spacing, i);
            &&& major_max != UNBOUNDED && before <= major_max ==> before + axis.spec_major(c.max)
                == major_max
            &&& major_max != UNBOUNDED && before > major_max ==> axis.spec_major(c.max) == 0
            &&& major_max == UNBOUNDED ==> axis.spec_major(c.max) == UNBOUNDED
            &&& axis.spec_minor(c.max) == axis.spec_minor(bc.max)
            &&& c.min == Size::zero_spec()
        }),
{
    lemma_offset_monotone(children, axis, spacing, i);
}

/// Child `i` (now `new_c[i]`) was laid out from `old_c[i]` within its constraints (see
/// [`child_constraints`]) and took the size it chose.
pub open spec fn child_laid_out<W: Widget>(
    old_c: Seq<Pod<W>>,
    new_c: Seq<Pod<W>>,
    bc: BoxConstraints,
    axis: Axis,
    spacing: u16,
    i: int,
) -> bool {
    exists|laid: Pod<W>, c0: LayoutCx, c1: LayoutCx|
        #[trigger] pod_layout_post(
            old_c[i],
            laid,
            c0,
            c1,
            child_constraints(bc, axis, new_c, spacing, i),
            new_c[i].state.size,
        ) && new_c[i].widget == laid.widget
}

impl<W: Widget> LinearLayout<W> {
    /// A layout of `children` along `axis`.
    pub fn new(children: Vec<Pod<W>>, spacing: u16, axis: Axis) -> (r: Self)
        ensures
            r.children@ == children@,
            r.spacing == spacing,
            r.axis == axis,
    {
        LinearLayout { children, spacing, axis }
    }

    /// Lays out the children one after the other along the axis: each gets what is
    /// left of the maximum along the axis (and no minimum), and starts where the previous
    /// one ended plus the spacing. The layout takes the total extent along the axis and
    /// the largest extent across it, constrained to `bc`.
    pub fn layout_children(&mut self, cx: &mut LayoutCx, bc: &BoxConstraints) -> (r: Size)
        ensures
            final(self).children@.len() == old(self).children@.len(),
            final(self).axis == old(self).axis,
            final(self).spacing == old(self).spacing,
            forall|i: int|
                0 <= i < final(self).children@.len() ==> #[trigger] final(self).children@[i].state.origin
                    == old(self).axis.spec_pack_point(
                    clamp_i32(offset(final(self).children@, old(self).axis, old(self).spacing, i)),
                    0,
                ),
            r == bc.spec_constrain(
                old(self).axis.spec_pack_size(
                    int_extent(
                        total_major(final(self).children@, old(self).axis, old(self).spacing),
                    ),
                    max_minor(final(self).children@, old(self).axis, final(self).children@.len() as int),
                ),
            ),
            parent_keeps(old(cx).widget_state, final(cx).widget_state),
            forall|i: int|
                0 <= i < final(self).children@.len() ==> #[trigger] child_laid_out(
                    old(self).children@,
                    final(self).children@,
                    *bc,
                    old(self).axis,
                    old(self).spacing,
                    i,
                ),
    {
        let axis = self.axis;
        let spacing = self.spacing;
        let n = self.children.len();
        let major_max = axis.major(bc.max);
        let mut child_bc = axis.with_major(bc.loosen(), 0, major_max);
        let mut major_used: u64 = 0;
        let mut minor: u16 = 0;
        let mut i: usize = 0;
        while i < n
            invariant
                n == self.children@.len(),
                axis == self.axis,
                spacing == self.spacing,
                self.axis == old(self).axis,
                self.spacing == old(self).spacing,
                0 <= i <= n,
                major_used as int == (if i < n || n == 0 {
                    let o = offset(self.children@, axis, spacing, i as int);
                    if o > u64::MAX { u64::MAX as int } else { o }
                } else {
                    let t = total_major(self.children@, axis, spacing);
                    if t > u64::MAX { u64::MAX as int } else { t }
                }),
                minor == max_minor(self.children@, axis, i as int),
                forall|j: int|
                    0 <= j < i ==> #[trigger] self.children@[j].state.origin == axis.spec_pack_point(
                        clamp_i32(offset(self.children@, axis, spacing, j)),
                        0,
                    ),
                parent_keeps(old(cx).widget_state, cx.widget_state),
                self.children@.len() == old(self).children@.len(),
                forall|j: int| i <= j < n ==> self.children@[j] == old(self).children@[j],
                major_max == axis.spec_major(bc.max),
                i < n ==> child_bc == child_constraints(*bc, axis, self.children@, spacing, i as int),
                forall|j: int|
                    0 <= j < i ==> #[trigger] child_laid_out(old(self).children@, self.children@, *bc, axis, spacing, j),
            decreases n - i,
        {
            let ghost before = self.children@;
            let ghost c0 = *cx;
            let size = self.children[i].layout(cx, &child_bc);
            let ghost laid = self.children@[i as int];
            let ghost c1 = *cx;
            let start: i32 = if major_used > i32::MAX as u64 {
                i32::MAX
            } else {
                major_used as i32
            };
            self.children[i].set_origin(cx, axis.pack_point(start, 0));
            proof {
                assert forall|j: int| 0 <= j < i implies self.children@[j] == before[j] by {}
                assert forall|j: int| 0 <= j <= i implies offset(self.children@, axis, spacing, j) == offset(before, axis, spacing, j) by {
                    lemma_offset_prefix(self.children@, before, axis, spacing, j, i as int);
                }
                lemma_max_minor_prefix(self.children@, before, axis, i as int, i as int);
                lemma_offset_monotone(self.children@, axis, spacing, i as int);
                assert(pod_layout_post(old(self).children@[i as int], laid, c0, c1, child_bc, self.children@[i as int].state.size)
                    && self.children@[i as int].widget == laid.widget);
                assert(child_constraints(*bc, axis, self.children@, spacing, i as int) == child_constraints(*bc, axis, before, spacing, i as int));
                assert(child_laid_out(old(self).children@, self.children@, *bc, axis, spacing, i as int));
                assert forall|j: int| 0 <= j < i implies #[trigger] child_laid_out(old(self).children@, self.children@, *bc, axis, spacing, j) by {
                    assert(child_laid_out(old(self).children@, before, *bc, axis, spacing, j));
                    assert(child_constraints(*bc, axis, self.children@, spacing, j) == child_constraints(*bc, axis, before, spacing, j));
                    assert(self.children@[j] == before[j]);
                }
            }
            major_used = major_used.saturating_add(axis.major(size) as u64);
            if i < n - 1 {
                major_used = major_used.saturating_add(spacing as u64);
            }
            let left: u16 = if major_max == UNBOUNDED {
                UNBOUNDED
            } else if major_used >= major_max as u64 {
                0
            } else {
                (major_max as u64 - major_used) as u16
            };
            child_bc = axis.with_major(child_bc, 0, left);
            let m = axis.minor(size);
            if m > minor {
                minor = m;
            }
            i = i + 1;
            proof {
                if i < n {
                    let o = offset(self.children@, axis, spacing, i as int);
                    assert(major_used as int == (if o > u64::MAX {
                        u64::MAX as int
                    } else {
                        o
                    }));
                    assert(major_max == axis.spec_major(bc.max));
                    assert(left == (if major_max == UNBOUNDED {
                        UNBOUNDED
                    } else if o >= major_max {
                        0
                    } else {
                        (major_max - o) as u16
                    }));
                    assert(child_bc == child_constraints(*bc, axis, self.children@, spacing, i as int));
                }
            }
        }
        let total: u16 = if major_used > UNBOUNDED as u64 {
            UNBOUNDED
        } else {
            major_used as u16
        };
        bc.constrain(axis.pack_size(total, minor))
    }
}

/// The offsets of the first `i + 1` children only depend on those children.
proof fn lemma_offset_prefix<W>(a: Seq<Pod<W>>, b: Seq<Pod<W>>, axis: Axis, spacing: u16, j: int, i: int)
    requires
        0 <= j <= i,
        a.len() == b.len(),
        forall|k: int| 0 <= k < i ==> a[k] == b[k],
    ensures
        offset(a, axis, spacing, j) == offset(b, axis, spacing, j),
    decreases j,
{
    if j > 0 {
        lemma_offset_prefix(a, b, axis, spacing, j - 1, i);
    }
}

/// The largest extent across the axis of the first `j` children only depends on those
/// children.
proof fn lemma_max_minor_prefix<W>(a: Seq<Pod<W>>, b: Seq<Pod<W>>, axis: Axis, j: int, i: int)
    requires
        0 <= j <= i,
        a.len() == b.len(),
        forall|k: int| 0 <= k < i ==> a[k] == b[k],
    ensures
        max_minor(a, axis, j) == max_minor(b, axis, j),
    decreases j,
{
    if j > 0 {
        lemma_max_minor_prefix(a, b, axis, j - 1, i);
    }
}

/// Each child was painted in turn, the context going from `cxs[i]` to `cxs[i + 1]`.
pub open spec fn children_painted<W: Widget>(old_c: Seq<Pod<W>>, new_c: Seq<Pod<W>>, cxs: Seq<PaintCx>) -> bool {
    &&& new_c.len() == old_c.len()
    &&& cxs.len() == old_c.len() + 1
    &&& forall|i: int|
        0 <= i < old_c.len() ==> #[trigger] pod_paint_post(old_c[i], new_c[i], cxs[i], cxs[i + 1])
}

/// Each child got `event` in turn, the context going from `cxs[i]` to `cxs[i + 1]`.
pub open spec fn children_got_event<W: Widget>(old_c: Seq<Pod<W>>, new_c: Seq<Pod<W>>, cxs: Seq<EventCx>, event: Event) -> bool {
    &&& new_c.len() == old_c.len()
    &&& cxs.len() == old_c.len() + 1
    &&& forall|i: int|
        0 <= i < old_c.len() ==> #[trigger] pod_event_post(old_c[i], new_c[i], cxs[i], cxs[i + 1], event)
}

/// Each child got the lifecycle notification `event` in turn, the context going from
/// `cxs[i]` to `cxs[i + 1]`.
pub open spec fn children_got_lifecycle<W: Widget>(old_c: Seq<Pod<W>>, new_c: Seq<Pod<W>>, cxs: Seq<LifeCycleCx>, event: LifeCycle) -> bool {
    &&& new_c.len() == old_c.len()
    &&& cxs.len() == old_c.len() + 1
    &&& forall|i: int|
        0 <= i < old_c.len() ==> #[trigger] pod_lifecycle_post(old_c[i], new_c[i], cxs[i], cxs[i + 1], event)
}

impl<W: Widget> Widget for LinearLayout<W> {
    open spec fn lifecycle_spec(old_w: Self, new_w: Self, old_cx: LifeCycleCx, new_cx: LifeCycleCx, event: LifeCycle) -> bool {
        &&& (new_w.axis == old_w.axis)
        &&& (new_w.spacing == old_w.spacing)
        &&& (exists|cxs: Seq<LifeCycleCx>|
                #![auto]
                cxs[0] == old_cx && cxs[cxs.len() - 1] == new_cx && children_got_lifecycle(
                    old_w.children@,
                    new_w.children@,
                    cxs,
                    event,
                ))
    }

    open spec fn paint_spec(old_w: Self, new_w: Self, old_cx: PaintCx, new_cx: PaintCx) -> bool {
        &&& (new_w.axis == old_w.axis)
        &&& (new_w.spacing == old_w.spacing)
        &&& (exists|cxs: Seq<PaintCx>|
                #![auto]
                cxs[0] == old_cx && cxs[cxs.len() - 1] == new_cx && children_painted(
                    old_w.children@,
                    new_w.children@,
                    cxs,
                ))
    }

    open spec fn layout_spec(old_w: Self, new_w: Self, old_cx: LayoutCx, new_cx: LayoutCx, bc: BoxConstraints, size: Size) -> bool {
        &&& (new_w.children@.len() == old_w.children@.len())
        &&& (new_w.axis == old_w.axis)
        &&& (new_w.spacing == old_w.spacing)
        &&& (forall|i: int|
                0 <= i < new_w.children@.len() ==> #[trigger] new_w.children@[i].state.origin
                    == old_w.axis.spec_pack_point(
                    clamp_i32(offset(new_w.children@, old_w.axis, old_w.spacing, i)),
                    0,
                ))
        &&& (size == bc.spec_constrain(
                old_w.axis.spec_pack_size(
                    int_extent(
                        total_major(new_w.children@, old_w.axis, old_w.spacing),
                    ),
                    max_minor(new_w.children@, old_w.axis, new_w.children@.len() as int),
                ),
            ))
        &&& (forall|i: int|
            0 <= i < new_w.children@.len() ==> #[trigger] child_laid_out(
                old_w.children@,
                new_w.children@,
                bc,
                old_w.axis,
                old_w.spacing,
                i,
            ))
    }

    open spec fn event_spec(old_w: Self, new_w: Self, old_cx: EventCx, new_cx: EventCx, event: Event) -> bool {
        &&& (new_w.axis == old_w.axis)
        &&& (new_w.spacing == old_w.spacing)
        &&& (exists|cxs: Seq<EventCx>|
                #![auto]
                cxs[0] == old_cx && cxs[cxs.len() - 1] == new_cx && children_got_event(
                    old_w.children@,
                    new_w.children@,
                    cxs,
                    event,
                ))
    }

    /// Paints the children in order.
    fn paint(&mut self, cx: &mut PaintCx)
    {
        let n = self.children.len();
        let mut i: usize = 0;
        let ghost mut cxs: Seq<PaintCx> = seq![*cx];
        while i < n
            invariant
                n == self.children@.len(),
                n == old(self).children@.len(),
                i <= n,
                self.axis == old(self).axis,
                self.spacing == old(self).spacing,
                cxs.len() == i + 1,
                cxs[0] == *old(cx),
                cxs[i as int] == *cx,
                cx.widget_state == old(cx).widget_state,
                forall|j: int| 0 <= j < i ==> #[trigger] pod_paint_post(old(self).children@[j], self.children@[j], cxs[j], cxs[j + 1]),
                forall|j: int| i <= j < n ==> self.children@[j] == old(self).children@[j],
            decreases n - i,
        {
            self.children[i].paint(cx);
            proof {
                cxs = cxs.push(*cx);
            }
            i = i + 1;
        }
        assert(children_painted(old(self).children@, self.children@, cxs));
    }

    /// Lays the children out one after the other (see [`LinearLayout::layout_children`]).
    fn layout(&mut self, cx: &mut LayoutCx, bc: &BoxConstraints) -> (size: Size)
    {
        self.layout_children(cx, bc)
    }

    /// Hands `event` to the children in order, with one context for all of them.
    fn event(&mut self, cx: &mut EventCx, event: &Event)
    {
        let n = self.children.len();
        let mut i: usize = 0;
        let ghost mut cxs: Seq<EventCx> = seq![*cx];
        while i < n
            invariant
                n == self.children@.len(),
                n == old(self).children@.len(),
                i <= n,
                self.axis == old(self).axis,
                self.spacing == old(self).spacing,
                cxs.len() == i + 1,
                cxs[0] == *old(cx),
                cxs[i as int] == *cx,
                parent_keeps(old(cx).widget_state, cx.widget_state),
                forall|j: int| 0 <= j < i ==> #[trigger] pod_event_post(old(self).children@[j], self.children@[j], cxs[j], cxs[j + 1], *event),
                forall|j: int| i <= j < n ==> self.children@[j] == old(self).children@[j],
            decreases n - i,
        {
            self.children[i].event(cx, event);
            proof {
                cxs = cxs.push(*cx);
            }
            i = i + 1;
        }
        assert(children_got_event(old(self).children@, self.children@, cxs, *event));
    }

    /// Hands the lifecycle notification to the children in order.
    fn lifecycle(&mut self, cx: &mut LifeCycleCx, event: &LifeCycle)
    {
        let n = self.children.len();
        let mut i: usize = 0;
        let ghost mut cxs: Seq<LifeCycleCx> = seq![*cx];
        while i < n
            invariant
                n == self.children@.len(),
                n == old(self).children@.len(),
                i <= n,
                self.axis == old(self).axis,
                self.spacing == old(self).spacing,
                cxs.len() == i + 1,
                cxs[0] == *old(cx),
                cxs[i as int] == *cx,
                parent_keeps(old(cx).widget_state, cx.widget_state),
                old(cx).widget_state.flags.bits & 0x8 != 0 ==> cx.widget_state.flags.bits & 0x8 != 0,
                forall|j: int| 0 <= j < i ==> #[trigger] pod_lifecycle_post(old(self).children@[j], self.children@[j], cxs[j], cxs[j + 1], *event),
                forall|j: int| i <= j < n ==> self.children@[j] == old(self).children@[j],
            decreases n - i,
        {
            self.children[i].lifecycle(cx, event);
            proof {
                cxs = cxs.push(*cx);
            }
            i = i + 1;
        }
        assert(children_got_lifecycle(old(self).children@, self.children@, cxs, *event));
    }
}

} // verus!
