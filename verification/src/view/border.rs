//! The border view.
use vstd::prelude::*;

use crate::flags::{Borders, ChangeFlags};
use crate::style::{BorderKind, Color, Style};
use crate::flags::Modifier;
use crate::view::common::{BorderStyle, Styleable};
use crate::widget::border::Border as BorderWidget;
use crate::widget::pod::Widget;

verus! {

/// A view that draws a border around its content.
pub struct Border<V> {
    pub content: V,
    pub borders: Borders,
    pub kind: BorderKind,
    pub style: Style,
}

impl<V> Border<V> {
    /// `content` with the border that `style` describes.
    pub fn new(content: V, style: BorderStyle) -> (r: Border<V>)
        ensures
            r.content == content,
            r.borders == style.borders,
            r.kind == style.kind,
            r.style == style.style,
    {
        Border { content, borders: style.borders, kind: style.kind, style: style.style }
    }

    /// Brings the border widget up to date with this view: its borders, its style and its
    /// kind of line. Other borders or another kind of line need a new layout and a
    /// repaint, another style a repaint.
    pub fn update_element<W: Widget>(&self, element: &mut BorderWidget<W>) -> (r: ChangeFlags)
        ensures
            final(element).borders == self.borders,
            final(element).kind == self.kind,
            final(element).style == self.style,
            final(element).content == old(element).content,
            r.bits == (if old(element).borders != self.borders || old(element).kind
                != self.kind {
                0xau8
            } else if old(element).style != self.style {
                0x8u8
            } else {
                0u8
            }),
    {
        let b = element.set_borders(self.borders);
        let s = element.set_style(self.style);
        let k = element.set_kind(self.kind);
        assert(forall|x: u8, y: u8, z: u8|
            (x == 0 || x == 0xa) && (y == 0 || y == 8) && (z == 0 || z == 0xa) ==> #[trigger] (x
                | y | z) == (if x == 0xa || z == 0xa {
                0xau8
            } else if y == 8 {
                8u8
            } else {
                0u8
            })) by (bit_vector);
        b.union(s).union(k)
    }
}

impl<V> Styleable for Border<V> {
    type Output = Border<V>;

    /// The border drawn in the foreground color `color`.
    fn fg(self, color: Color) -> (r: Border<V>)
        ensures
            r.style == (Style { fg: Some(color), ..self.style }),
            r.content == self.content,
            r.borders == self.borders,
            r.kind == self.kind,
    {
        let mut s = self;
        s.style.fg = Some(color);
        s
    }

    /// The border drawn on the background color `color`.
    fn bg(self, color: Color) -> (r: Border<V>)
        ensures
            r.style == (Style { bg: Some(color), ..self.style }),
            r.content == self.content,
            r.borders == self.borders,
            r.kind == self.kind,
    {
        let mut s = self;
        s.style.bg = Some(color);
        s
    }

    /// The border drawn in `style`.
    fn style(self, style: Style) -> (r: Border<V>)
        ensures
            r.style == style,
            r.content == self.content,
            r.borders == self.borders,
            r.kind == self.kind,
    {
        let mut s = self;
        s.style = style;
        s
    }

    /// The border unchanged: the modified style is computed and dropped, so the
    /// modifier is not added.
    fn modifier(self, modifier: Modifier) -> (r: Border<V>)
        ensures
            r == self,
    {
        let _ = self.style.add_modifier(modifier);
        self
    }

    /// The style that the border is drawn in.
    fn current_style(&self) -> (r: Style)
        ensures
            r == self.style,
    {
        self.style
    }
}

} // verus!
