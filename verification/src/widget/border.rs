//! A widget that draws a border around its content.
use vstd::prelude::*;

use crate::flags::{Borders, ChangeFlags};
use crate::geometry::{clamp_i32, extent_add, sat_add_i32, BoxConstraints, Point, Size};
use crate::style::{empty_style, patched, BorderKind, LinePart, Style, Symbol};
use crate::widget::events::{Event, LifeCycle};
use crate::widget::pod::{
    pod_event_post, pod_layout_post, pod_lifecycle_post, pod_paint_post, initial_widget_state, DrawCommand, EventCx, LayoutCx, LifeCycleCx, PaintCx, Pod, Widget,
};

verus! {

/// Draws the borders in `borders` (lines of kind `kind`, colored by `style`) around
/// its content.
pub struct Border<W> {
    pub content: Pod<W>,
    pub borders: Borders,
    pub kind: BorderKind,
    pub style: Style,
}

/// 1 when `borders` has one of the borders in `mask`, else 0.
pub open spec fn pad(borders: Borders, mask: u8) -> u16 {
    if borders.bits & mask != 0 {
        1
    } else {
        0
    }
}

/// The space the border takes: a column on the left and the right, a row at the top
/// and the bottom, for each side where it has a line or a corner.
pub open spec fn border_padding(borders: Borders) -> Size {
    Size {
        width: (pad(borders, 0x58) + pad(borders, 0xa2)) as u16,
        height: (pad(borders, 0x31) + pad(borders, 0xc4)) as u16,
    }
}

/// The paint instruction for the cell at `(x, y)` of a widget whose window origin is
/// `(ox, oy)`.
pub open spec fn cell_cmd(ox: i32, oy: i32, x: int, y: int, symbol: Symbol, style: Style) -> DrawCommand {
    DrawCommand::Symbol { x: clamp_i32(ox + x), y: clamp_i32(oy + y), symbol, style }
}

/// The cells `(start..end, y)`, each with `part` of the line kind `kind`.
#[verifier::opaque]
pub open spec fn hrun(ox: i32, oy: i32, y: int, start: int, end: int, kind: BorderKind, part: LinePart, style: Style) -> Seq<DrawCommand> {
    if start < end {
        Seq::new((end - start) as nat, |i: int| cell_cmd(ox, oy, start + i, y, Symbol::Line(kind, part), style))
    } else {
        Seq::empty()
    }
}

/// The cells `(x, start..end)`, each with `part` of the line kind `kind`.
#[verifier::opaque]
pub open spec fn vrun(ox: i32, oy: i32, x: int, start: int, end: int, kind: BorderKind, part: LinePart, style: Style) -> Seq<DrawCommand> {
    if start < end {
        Seq::new((end - start) as nat, |i: int| cell_cmd(ox, oy, x, start + i, Symbol::Line(kind, part), style))
    } else {
        Seq::empty()
    }
}

/// `s` when `b` holds, else nothing.
pub open spec fn when(b: bool, s: Seq<DrawCommand>) -> Seq<DrawCommand> {
    if b {
        s
    } else {
        Seq::empty()
    }
}

/// Whether `borders` has all the borders in `mask`.
pub open spec fn has(borders: Borders, mask: u8) -> bool {
    borders.bits & mask == mask
}

/// Whether `borders` has one of the borders in `mask`.
pub open spec fn meets(borders: Borders, mask: u8) -> bool {
    borders.bits & mask != 0
}

/// The horizontal lines of a border: the top and bottom rows (between the corner
/// columns when there are left or right borders).
#[verifier::opaque]
pub open spec fn border_horizontal(borders: Borders, kind: BorderKind, style: Style, w: int, h: int, ox: i32, oy: i32) -> Seq<DrawCommand> {
    let hstart: int = if meets(borders, 0x58) { 1 } else { 0 };
    let hend: int = if meets(borders, 0xa2) { w - 1 } else { w };
    when(meets(borders, 0x5), when(has(borders, 0x1), hrun(ox, oy, 0, hstart, hend, kind, LinePart::Horizontal, style))
        + when(has(borders, 0x4), hrun(ox, oy, h - 1, hstart, hend, kind, LinePart::Horizontal, style)))
}

/// The vertical lines of a border: the left and right columns (between the corner rows
/// when there are top or bottom borders).
#[verifier::opaque]
pub open spec fn border_vertical(borders: Borders, kind: BorderKind, style: Style, w: int, h: int, ox: i32, oy: i32) -> Seq<DrawCommand> {
    let vstart: int = if meets(borders, 0x31) { 1 } else { 0 };
    let vend: int = if meets(borders, 0xc4) { h - 1 } else { h };
    when(meets(borders, 0xa), when(has(borders, 0x8), vrun(ox, oy, 0, vstart, vend, kind, LinePart::Vertical, style))
        + when(has(borders, 0x2), vrun(ox, oy, w - 1, vstart, vend, kind, LinePart::Vertical, style)))
}

/// The corners of a border, in the order top left, bottom left, bottom right, top right.
#[verifier::opaque]
pub open spec fn border_corners(borders: Borders, kind: BorderKind, style: Style, w: int, h: int, ox: i32, oy: i32) -> Seq<DrawCommand> {
    when(has(borders, 0x10), seq![cell_cmd(ox, oy, 0, 0, Symbol::Line(kind, LinePart::TopLeft), style)])
        + when(has(borders, 0x40), seq![cell_cmd(ox, oy, 0, h - 1, Symbol::Line(kind, LinePart::BottomLeft), style)])
        + when(has(borders, 0x80), seq![cell_cmd(ox, oy, w - 1, h - 1, Symbol::Line(kind, LinePart::BottomRight), style)])
        + when(has(borders, 0x20), seq![cell_cmd(ox, oy, w - 1, 0, Symbol::Line(kind, LinePart::TopRight), style)])
}

/// The cells that a border draws on a `w` x `h` widget at window origin `(ox, oy)`, in
/// drawing order: nothing on an empty widget; a dot in `base` style on a single cell
/// with a corner; else the horizontal lines, the vertical lines and the corners, in the
/// style `style`.
pub open spec fn border_cells(borders: Borders, kind: BorderKind, base: Style, style: Style, w: int, h: int, ox: i32, oy: i32) -> Seq<DrawCommand> {
    if w == 0 || h == 0 {
        Seq::empty()
    } else if w == 1 && h == 1 && meets(borders, 0xf0) {
        seq![cell_cmd(ox, oy, 0, 0, Symbol::Dot, base)]
    } else {
        border_horizontal(borders, kind, style, w, h, ox, oy) + border_vertical(borders, kind, style, w, h, ox, oy)
            + border_corners(borders, kind, style, w, h, ox, oy)
    }
}

/// The paint instruction lies in the `w` x `h` rectangle at `(ox, oy)`.
pub open spec fn cell_within(c: DrawCommand, ox: int, oy: int, w: int, h: int) -> bool {
    match c {
        DrawCommand::Symbol { x, y, .. } => ox <= x < ox + w && oy <= y < oy + h,
        DrawCommand::Text { .. } => false,
    }
}

/// Every paint instruction of `s` lies in the `w` x `h` rectangle at `(ox, oy)`.
pub open spec fn all_within(s: Seq<DrawCommand>, ox: int, oy: int, w: int, h: int) -> bool {
    forall|i: int| 0 <= i < s.len() ==> cell_within(#[trigger] s[i], ox, oy, w, h)
}

proof fn lemma_concat_within(a: Seq<DrawCommand>, b: Seq<DrawCommand>, ox: int, oy: int, w: int, h: int)
    requires
        all_within(a, ox, oy, w, h),
        all_within(b, ox, oy, w, h),
    ensures
        all_within(a + b, ox, oy, w, h),
{
    assert forall|i: int| 0 <= i < (a + b).len() implies cell_within(#[trigger] (a + b)[i], ox, oy, w, h) by {
        if i < a.len() {
            assert((a + b)[i] == a[i]);
        } else {
            assert((a + b)[i] == b[i - a.len()]);
        }
    }
}

proof fn lemma_hrun_within(ox: i32, oy: i32, y: int, start: int, end: int, kind: BorderKind, part: LinePart, style: Style, w: int, h: int)
    requires
        0 <= y < h,
        0 <= start,
        end <= w,
        w <= 65535,
        h <= 65535,
        ox + w <= i32::MAX,
        oy + h <= i32::MAX,
    ensures
        all_within(hrun(ox, oy, y, start, end, kind, part, style), ox as int, oy as int, w, h),
{
    reveal(hrun);
}

proof fn lemma_vrun_within(ox: i32, oy: i32, x: int, start: int, end: int, kind: BorderKind, part: LinePart, style: Style, w: int, h: int)
    requires
        0 <= x < w,
        0 <= start,
        end <= h,
        w <= 65535,
        h <= 65535,
        ox + w <= i32::MAX,
        oy + h <= i32::MAX,
    ensures
        all_within(vrun(ox, oy, x, start, end, kind, part, style), ox as int, oy as int, w, h),
{
    reveal(vrun);
}

/// Law: a border only draws inside the rectangle of its widget (where the window
/// coordinates of that rectangle do not saturate).
pub proof fn lemma_border_cells_within(borders: Borders, kind: BorderKind, base: Style, style: Style, w: int, h: int, ox: i32, oy: i32)
    requires
        0 <= w <= 65535,
        0 <= h <= 65535,
        ox + w <= i32::MAX,
        oy + h <= i32::MAX,
    ensures
        all_within(border_cells(borders, kind, base, style, w, h, ox, oy), ox as int, oy as int, w, h),
{
    let (oxi, oyi) = (ox as int, oy as int);
    if w == 0 || h == 0 {
    } else if w == 1 && h == 1 && meets(borders, 0xf0) {
        let c = border_cells(borders, kind, base, style, w, h, ox, oy);
        assert(cell_within(c[0], oxi, oyi, w, h));
    } else {
        let hstart: int = if meets(borders, 0x58) { 1 } else { 0 };
        let hend: int = if meets(borders, 0xa2) { w - 1 } else { w };
        let vstart: int = if meets(borders, 0x31) { 1 } else { 0 };
        let vend: int = if meets(borders, 0xc4) { h - 1 } else { h };
        lemma_hrun_within(ox, oy, 0, hstart, hend, kind, LinePart::Horizontal, style, w, h);
        lemma_hrun_within(ox, oy, h - 1, hstart, hend, kind, LinePart::Horizontal, style, w, h);
        lemma_vrun_within(ox, oy, 0, vstart, vend, kind, LinePart::Vertical, style, w, h);
        lemma_vrun_within(ox, oy, w - 1, vstart, vend, kind, LinePart::Vertical, style, w, h);
        let top = when(has(borders, 0x1), hrun(ox, oy, 0, hstart, hend, kind, LinePart::Horizontal, style));
        let bottom = when(has(borders, 0x4), hrun(ox, oy, h - 1, hstart, hend, kind, LinePart::Horizontal, style));
        let left = when(has(borders, 0x8), vrun(ox, oy, 0, vstart, vend, kind, LinePart::Vertical, style));
        let right = when(has(borders, 0x2), vrun(ox, oy, w - 1, vstart, vend, kind, LinePart::Vertical, style));
        lemma_concat_within(top, bottom, oxi, oyi, w, h);
        lemma_concat_within(left, right, oxi, oyi, w, h);
        let hz = border_horizontal(borders, kind, style, w, h, ox, oy);
        let vt = border_vertical(borders, kind, style, w, h, ox, oy);
        let cn = border_corners(borders, kind, style, w, h, ox, oy);
        assert(all_within(hz, oxi, oyi, w, h)) by {
            reveal(border_horizontal);
        }
        assert(all_within(vt, oxi, oyi, w, h)) by {
            reveal(border_vertical);
        }
        let c1 = when(has(borders, 0x10), seq![cell_cmd(ox, oy, 0, 0, Symbol::Line(kind, LinePart::TopLeft), style)]);
        let c2 = when(has(borders, 0x40), seq![cell_cmd(ox, oy, 0, h - 1, Symbol::Line(kind, LinePart::BottomLeft), style)]);
        let c3 = when(has(borders, 0x80), seq![cell_cmd(ox, oy, w - 1, h - 1, Symbol::Line(kind, LinePart::BottomRight), style)]);
        let c4 = when(has(borders, 0x20), seq![cell_cmd(ox, oy, w - 1, 0, Symbol::Line(kind, LinePart::TopRight), style)]);
        assert(all_within(c1, oxi, oyi, w, h));
        assert(all_within(c2, oxi, oyi, w, h));
        assert(all_within(c3, oxi, oyi, w, h));
        assert(all_within(c4, oxi, oyi, w, h));
        lemma_concat_within(c1, c2, oxi, oyi, w, h);
        lemma_concat_within(c1 + c2, c3, oxi, oyi, w, h);
        lemma_concat_within(c1 + c2 + c3, c4, oxi, oyi, w, h);
        assert(all_within(cn, oxi, oyi, w, h)) by {
            reveal(border_corners);
        }
        lemma_concat_within(hz, vt, oxi, oyi, w, h);
        lemma_concat_within(hz + vt, cn, oxi, oyi, w, h);
    }
}

fn push_cell(commands: &mut Vec<DrawCommand>, ox: i32, oy: i32, x: u16, y: u16, symbol: Symbol, style: Style)
    ensures
        final(commands)@ == old(commands)@.push(cell_cmd(ox, oy, x as int, y as int, symbol, style)),
{
    commands.push(
        DrawCommand::Symbol {
            x: sat_add_i32(ox, x as i32),
            y: sat_add_i32(oy, y as i32),
            symbol,
            style,
        },
    );
}

fn push_hrun(commands: &mut Vec<DrawCommand>, ox: i32, oy: i32, y: u16, start: u16, end: u16, kind: BorderKind, style: Style)
    ensures
        final(commands)@ == old(commands)@ + hrun(ox, oy, y as int, start as int, end as int, kind, LinePart::Horizontal, style),
{
    proof {
        reveal(hrun);
    }
    let mut x = start;
    while x < end
        invariant
            start <= end ==> start <= x <= end,
            start > end ==> x == start,
            commands@ == old(commands)@ + hrun(ox, oy, y as int, start as int, x as int, kind, LinePart::Horizontal, style),
        decreases end - x,
    {
        proof {
            reveal(hrun);
        }
        push_cell(commands, ox, oy, x, y, Symbol::Line(kind, LinePart::Horizontal), style);
        x = x + 1;
        assert(commands@ =~= old(commands)@ + hrun(ox, oy, y as int, start as int, x as int, kind, LinePart::Horizontal, style));
    }
    assert(commands@ =~= old(commands)@ + hrun(ox, oy, y as int, start as int, end as int, kind, LinePart::Horizontal, style));
}

fn push_vrun(commands: &mut Vec<DrawCommand>, ox: i32, oy: i32, x: u16, start: u16, end: u16, kind: BorderKind, style: Style)
    ensures
        final(commands)@ == old(commands)@ + vrun(ox, oy, x as int, start as int, end as int, kind, LinePart::Vertical, style),
{
    proof {
        reveal(vrun);
    }
    let mut y = start;
    while y < end
        invariant
            start <= end ==> start <= y <= end,
            start > end ==> y == start,
            commands@ == old(commands)@ + vrun(ox, oy, x as int, start as int, y as int, kind, LinePart::Vertical, style),
        decreases end - y,
    {
        proof {
            reveal(vrun);
        }
        push_cell(commands, ox, oy, x, y, Symbol::Line(kind, LinePart::Vertical), style);
        y = y + 1;
        assert(commands@ =~= old(commands)@ + vrun(ox, oy, x as int, start as int, y as int, kind, LinePart::Vertical, style));
    }
    assert(commands@ =~= old(commands)@ + vrun(ox, oy, x as int, start as int, end as int, kind, LinePart::Vertical, style));
}

fn push_horizontal(commands: &mut Vec<DrawCommand>, b: Borders, kind: BorderKind, style: Style, width: u16, height: u16, ox: i32, oy: i32)
    requires
        width >= 1,
        height >= 1,
    ensures
        final(commands)@ == old(commands)@ + border_horizontal(b, kind, style, width as int, height as int, ox, oy),
{
    let hstart: u16 = if b.intersects(Borders::left_with_corners()) { 1 } else { 0 };
    let hend: u16 = if b.intersects(Borders::right_with_corners()) { width - 1 } else { width };
    if b.intersects(Borders::horizontal()) {
        if b.contains(Borders::top()) {
            push_hrun(commands, ox, oy, 0, hstart, hend, kind, style);
        }
        if b.contains(Borders::bottom()) {
            push_hrun(commands, ox, oy, height - 1, hstart, hend, kind, style);
        }
    }
    reveal(border_horizontal);
    assert(commands@ =~= old(commands)@ + border_horizontal(b, kind, style, width as int, height as int, ox, oy));
}

fn push_vertical(commands: &mut Vec<DrawCommand>, b: Borders, kind: BorderKind, style: Style, width: u16, height: u16, ox: i32, oy: i32)
    requires
        width >= 1,
        height >= 1,
    ensures
        final(commands)@ == old(commands)@ + border_vertical(b, kind, style, width as int, height as int, ox, oy),
{
    let vstart: u16 = if b.intersects(Borders::top_with_corners()) { 1 } else { 0 };
    let vend: u16 = if b.intersects(Borders::bottom_with_corners()) { height - 1 } else { height };
    if b.intersects(Borders::vertical()) {
        if b.contains(Borders::left()) {
            push_vrun(commands, ox, oy, 0, vstart, vend, kind, style);
        }
        if b.contains(Borders::right()) {
            push_vrun(commands, ox, oy, width - 1, vstart, vend, kind, style);
        }
    }
    reveal(border_vertical);
    assert(commands@ =~= old(commands)@ + border_vertical(b, kind, style, width as int, height as int, ox, oy));
}

fn push_corners(commands: &mut Vec<DrawCommand>, b: Borders, kind: BorderKind, style: Style, width: u16, height: u16, ox: i32, oy: i32)
    requires
        width >= 1,
        height >= 1,
    ensures
        final(commands)@ == old(commands)@ + border_corners(b, kind, style, width as int, height as int, ox, oy),
{
    if b.contains(Borders::top_left_corner()) {
        push_cell(commands, ox, oy, 0, 0, Symbol::Line(kind, LinePart::TopLeft), style);
    }
    if b.contains(Borders::bottom_left_corner()) {
        push_cell(commands, ox, oy, 0, height - 1, Symbol::Line(kind, LinePart::BottomLeft), style);
    }
    if b.contains(Borders::bottom_right_corner()) {
        push_cell(commands, ox, oy, width - 1, height - 1, Symbol::Line(kind, LinePart::BottomRight), style);
    }
    if b.contains(Borders::top_right_corner()) {
        push_cell(commands, ox, oy, width - 1, 0, Symbol::Line(kind, LinePart::TopRight), style);
    }
    reveal(border_corners);
    assert(commands@ =~= old(commands)@ + border_corners(b, kind, style, width as int, height as int, ox, oy));
}

impl<W: Widget> Border<W> {
    /// Wraps `content` in a border.
    pub fn new(content: W, borders: Borders, style: Style, kind: BorderKind) -> (r: Self)
        ensures
            r.content.state == initial_widget_state(),
            r.content.widget == content,
            r.borders == borders,
            r.style == style,
            r.kind == kind,
    {
        Border { content: Pod::new(content), borders, kind, style }
    }

    /// Sets the drawn borders; a change requires layout and paint.
    pub fn set_borders(&mut self, borders: Borders) -> (r: ChangeFlags)
        ensures
            final(self).borders == borders,
            final(self).kind == old(self).kind,
            final(self).style == old(self).style,
            final(self).content == old(self).content,
            r.bits == (if old(self).borders != borders {
                0xau8
            } else {
                0u8
            }),
    {
        if self.borders != borders {
            self.borders = borders;
            proof {
                crate::flags::lemma_flag_consts();
            }
            ChangeFlags::layout().union(ChangeFlags::paint())
        } else {
            ChangeFlags::empty()
        }
    }

    /// Sets the kind of line; a change requires layout and paint.
    pub fn set_kind(&mut self, kind: BorderKind) -> (r: ChangeFlags)
        ensures
            final(self).kind == kind,
            final(self).borders == old(self).borders,
            final(self).style == old(self).style,
            final(self).content == old(self).content,
            r.bits == (if old(self).kind != kind {
                0xau8
            } else {
                0u8
            }),
    {
        if self.kind != kind {
            self.kind = kind;
            proof {
                crate::flags::lemma_flag_consts();
            }
            ChangeFlags::layout().union(ChangeFlags::paint())
        } else {
            ChangeFlags::empty()
        }
    }

    /// Sets the style of the lines; a change requires paint.
    pub fn set_style(&mut self, style: Style) -> (r: ChangeFlags)
        ensures
            final(self).style == style,
            final(self).borders == old(self).borders,
            final(self).kind == old(self).kind,
            final(self).content == old(self).content,
            r.bits == (if old(self).style != style {
                0x8u8
            } else {
                0u8
            }),
    {
        if style != self.style {
            self.style = style;
            ChangeFlags::paint()
        } else {
            ChangeFlags::empty()
        }
    }

    /// Draws the border (see [`border_cells`]) with the widget's style patched by the
    /// override style, which it consumes: the content is painted without it.
    pub fn render_border(&self, cx: &mut PaintCx)
        ensures
            final(cx).commands@ == old(cx).commands@ + border_cells(
                self.borders,
                self.kind,
                self.style,
                patched(self.style, old(cx).override_style),
                old(cx).widget_state.size.width as int,
                old(cx).widget_state.size.height as int,
                old(cx).widget_state.parent_window_origin.spec_translate(
                    old(cx).widget_state.origin,
                ).x,
                old(cx).widget_state.parent_window_origin.spec_translate(
                    old(cx).widget_state.origin,
                ).y,
            ),
            final(cx).override_style == empty_style(),
            final(cx).widget_state == old(cx).widget_state,
            final(cx).cx_state == old(cx).cx_state,
    {
        let style = self.style.patch(cx.override_style);
        cx.override_style = Style::new();
        let rect = cx.rect();
        let width = rect.width;
        let height = rect.height;
        let ox = rect.x;
        let oy = rect.y;
        if width == 0 || height == 0 {
            assert(cx.commands@ =~= old(cx).commands@ + Seq::<DrawCommand>::empty());
            return;
        }
        let b = self.borders;
        let kind = self.kind;
        if width == 1 && height == 1 && b.intersects(Borders::all_corners()) {
            push_cell(&mut cx.commands, ox, oy, 0, 0, Symbol::Dot, self.style);
            assert(cx.commands@ =~= old(cx).commands@ + seq![cell_cmd(ox, oy, 0, 0, Symbol::Dot, self.style)]);
            return;
        }
        push_horizontal(&mut cx.commands, b, kind, style, width, height, ox, oy);
        push_vertical(&mut cx.commands, b, kind, style, width, height, ox, oy);
        push_corners(&mut cx.commands, b, kind, style, width, height, ox, oy);
        assert(cx.commands@ =~= old(cx).commands@ + border_cells(b, kind, self.style, style, width as int, height as int, ox, oy));
    }

    /// Lays out the content within `bc` shrunk by the border, places it inside the
    /// border, and takes the content's size plus the border, constrained to `bc`.
    pub fn layout_content(&mut self, cx: &mut LayoutCx, bc: &BoxConstraints) -> (r: Size)
        ensures
            final(self).borders == old(self).borders,
            final(self).kind == old(self).kind,
            final(self).style == old(self).style,
            final(self).content.state.origin == Point::new_spec(
                pad(old(self).borders, 0x58) as i32,
                pad(old(self).borders, 0x31) as i32,
            ),
            r == bc.spec_constrain(
                final(self).content.state.size.spec_add(border_padding(old(self).borders)),
            ),
            crate::widget::pod::parent_keeps(old(cx).widget_state, final(cx).widget_state),
            exists|laid: Pod<W>, mid: LayoutCx|
                #[trigger] pod_layout_post(
                    old(self).content,
                    laid,
                    *old(cx),
                    mid,
                    bc.spec_shrink(border_padding(old(self).borders)),
                    final(self).content.state.size,
                ) && final(self).content.widget == laid.widget,
    {
        let pad_left: u16 = if self.borders.intersects(Borders::left_with_corners()) { 1 } else { 0 };
        let pad_right: u16 = if self.borders.intersects(Borders::right_with_corners()) { 1 } else { 0 };
        let pad_top: u16 = if self.borders.intersects(Borders::top_with_corners()) { 1 } else { 0 };
        let pad_bottom: u16 = if self.borders.intersects(Borders::bottom_with_corners()) { 1 } else { 0 };
        let border_padding = Size::new(pad_left + pad_right, pad_top + pad_bottom);
        let inner_bc = bc.shrink(border_padding);
        let content_size = self.content.layout(cx, &inner_bc);
        let ghost laid = self.content;
        let ghost mid = *cx;
        self.content.set_origin(cx, Point::new(pad_left as i32, pad_top as i32));
        assert(border_padding == crate::widget::border::border_padding(old(self).borders));
        assert(pod_layout_post(old(self).content, laid, *old(cx), mid, inner_bc, self.content.state.size)
            && self.content.widget == laid.widget);
        bc.constrain(content_size.add(border_padding))
    }
}

impl<W: Widget> Widget for Border<W> {
    open spec fn lifecycle_spec(old_w: Self, new_w: Self, old_cx: LifeCycleCx, new_cx: LifeCycleCx, event: LifeCycle) -> bool {
        &&& (new_w.borders == old_w.borders)
        &&& (new_w.kind == old_w.kind)
        &&& (new_w.style == old_w.style)
        &&& (pod_lifecycle_post(old_w.content, new_w.content, old_cx, new_cx, event))
    }

    open spec fn paint_spec(old_w: Self, new_w: Self, old_cx: PaintCx, new_cx: PaintCx) -> bool {
        &&& (new_w.borders == old_w.borders)
        &&& (new_w.kind == old_w.kind)
        &&& (new_w.style == old_w.style)
        &&& (exists|mid: PaintCx|
                #![auto]
                mid.commands@ == old_cx.commands@ + border_cells(
                    old_w.borders,
                    old_w.kind,
                    old_w.style,
                    patched(old_w.style, old_cx.override_style),
                    old_cx.widget_state.size.width as int,
                    old_cx.widget_state.size.height as int,
                    old_cx.widget_state.parent_window_origin.spec_translate(
                        old_cx.widget_state.origin,
                    ).x,
                    old_cx.widget_state.parent_window_origin.spec_translate(
                        old_cx.widget_state.origin,
                    ).y,
                ) && mid.override_style == empty_style() && mid.widget_state == old_cx.widget_state
                    && mid.cx_state == old_cx.cx_state && pod_paint_post(
                    old_w.content,
                    new_w.content,
                    mid,
                    new_cx,
                ))
    }

    open spec fn event_spec(old_w: Self, new_w: Self, old_cx: EventCx, new_cx: EventCx, event: Event) -> bool {
        &&& (new_w.borders == old_w.borders)
        &&& (new_w.kind == old_w.kind)
        &&& (new_w.style == old_w.style)
        &&& (pod_event_post(old_w.content, new_w.content, old_cx, new_cx, event))
    }

    open spec fn layout_spec(old_w: Self, new_w: Self, old_cx: LayoutCx, new_cx: LayoutCx, bc: BoxConstraints, size: Size) -> bool {
        &&& (new_w.borders == old_w.borders)
        &&& (new_w.kind == old_w.kind)
        &&& (new_w.style == old_w.style)
        &&& (new_w.content.state.origin == Point::new_spec(
                pad(old_w.borders, 0x58) as i32,
                pad(old_w.borders, 0x31) as i32,
            ))
        &&& (size == bc.spec_constrain(
                new_w.content.state.size.spec_add(border_padding(old_w.borders)),
            ))
        &&& (exists|laid: Pod<W>, mid: LayoutCx|
            #[trigger] pod_layout_post(old_w.content, laid, old_cx, mid, bc.spec_shrink(border_padding(old_w.borders)), new_w.content.state.size)
                && new_w.content.widget == laid.widget)
    }

    /// Draws the border (see [`Border::render_border`]), then paints the content without
    /// the imposed style.
    fn paint(&mut self, cx: &mut PaintCx)
    {
        self.render_border(cx);
        let ghost mid = *cx;
        self.content.paint(cx);
        assert(pod_paint_post(old(self).content, self.content, mid, *cx));
    }

    /// Hands the event to the content.
    fn event(&mut self, cx: &mut EventCx, event: &Event)
    {
        self.content.event(cx, event);
    }

    /// Lays the content out inside the border (see [`Border::layout_content`]).
    fn layout(&mut self, cx: &mut LayoutCx, bc: &BoxConstraints) -> (size: Size)
    {
        self.layout_content(cx, bc)
    }

    /// Hands the lifecycle notification to the content.
    fn lifecycle(&mut self, cx: &mut LifeCycleCx, event: &LifeCycle)
    {
        self.content.lifecycle(cx, event);
    }
}

} // verus!
