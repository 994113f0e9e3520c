//! What the views share: restyling (`Styleable`) and the ways to describe a border.
use vstd::prelude::*;

use crate::flags::{Borders, Modifier};
use crate::style::{empty_style, BorderKind, Color, Style};

verus! {

/// A view whose content can be restyled: a new foreground or background color, an
/// added modifier, or a whole new style.
pub trait Styleable: Sized {
    /// The view after restyling.
    type Output;

    /// With the foreground color `color`.
    fn fg(self, color: Color) -> Self::Output;

    /// With the background color `color`.
    fn bg(self, color: Color) -> Self::Output;

    /// With the style `style`.
    fn style(self, style: Style) -> Self::Output;

    /// With the modifier `modifier` added.
    fn modifier(self, modifier: Modifier) -> Self::Output;

    /// The style that the view has now.
    fn current_style(&self) -> Style;
}

/// How a border is drawn: which borders, with which kind of line, in which style.
#[derive(Clone, Copy, Debug, PartialEq, Eq, Structural)]
pub struct BorderStyle {
    pub borders: Borders,
    pub kind: BorderKind,
    pub style: Style,
}

/// The border style with the given parts.
pub open spec fn border_style(borders: u8, kind: BorderKind, style: Style) -> BorderStyle {
    BorderStyle { borders: Borders { bits: borders }, kind, style }
}

impl Default for BorderStyle {
    /// No borders, straight lines, the empty style.
    fn default() -> (r: BorderStyle)
        ensures
            r == border_style(0, BorderKind::Straight, empty_style()),
    {
        BorderStyle { borders: Borders::none(), kind: BorderKind::Straight, style: Style::new() }
    }
}

/// All borders, straight lines, the empty style.
impl From<()> for BorderStyle {
    fn from(v: ()) -> (r: BorderStyle) {
        BorderStyle { borders: Borders::all(), kind: BorderKind::Straight, style: Style::new() }
    }
}

impl vstd::std_specs::convert::FromSpecImpl<()> for BorderStyle {
    open spec fn obeys_from_spec() -> bool {
        true
    }

    open spec fn from_spec(v: ()) -> BorderStyle {
        BorderStyle { borders: Borders { bits: 0xff }, kind: BorderKind::Straight, style: empty_style() }
    }
}

/// The given borders, straight lines, the empty style.
impl From<Borders> for BorderStyle {
    fn from(v: Borders) -> (r: BorderStyle) {
        BorderStyle { borders: v, kind: BorderKind::Straight, style: Style::new() }
    }
}

impl vstd::std_specs::convert::FromSpecImpl<Borders> for BorderStyle {
    open spec fn obeys_from_spec() -> bool {
        true
    }

    open spec fn from_spec(v: Borders) -> BorderStyle {
        BorderStyle { borders: v, kind: BorderKind::Straight, style: empty_style() }
    }
}

/// All borders, straight lines, the given style.
impl From<Style> for BorderStyle {
    fn from(v: Style) -> (r: BorderStyle) {
        BorderStyle { borders: Borders::all(), kind: BorderKind::Straight, style: v }
    }
}

impl vstd::std_specs::convert::FromSpecImpl<Style> for BorderStyle {
    open spec fn obeys_from_spec() -> bool {
        true
    }

    open spec fn from_spec(v: Style) -> BorderStyle {
        BorderStyle { borders: Borders { bits: 0xff }, kind: BorderKind::Straight, style: v }
    }
}

/// All borders, with the given kind of line, the empty style.
impl From<BorderKind> for BorderStyle {
    fn from(v: BorderKind) -> (r: BorderStyle) {
        BorderStyle { borders: Borders::all(), kind: v, style: Style::new() }
    }
}

impl vstd::std_specs::convert::FromSpecImpl<BorderKind> for BorderStyle {
    open spec fn obeys_from_spec() -> bool {
        true
    }

    open spec fn from_spec(v: BorderKind) -> BorderStyle {
        BorderStyle { borders: Borders { bits: 0xff }, kind: v, style: empty_style() }
    }
}

/// The given borders and style, straight lines.
impl From<(Borders, Style)> for BorderStyle {
    fn from(v: (Borders, Style)) -> (r: BorderStyle) {
        BorderStyle { borders: v.0, kind: BorderKind::Straight, style: v.1 }
    }
}

impl vstd::std_specs::convert::FromSpecImpl<(Borders, Style)> for BorderStyle {
    open spec fn obeys_from_spec() -> bool {
        true
    }

    open spec fn from_spec(v: (Borders, Style)) -> BorderStyle {
        BorderStyle { borders: v.0, kind: BorderKind::Straight, style: v.1 }
    }
}

/// The given borders and style, straight lines.
impl From<(Style, Borders)> for BorderStyle {
    fn from(v: (Style, Borders)) -> (r: BorderStyle) {
        BorderStyle { borders: v.1, kind: BorderKind::Straight, style: v.0 }
    }
}

impl vstd::std_specs::convert::FromSpecImpl<(Style, Borders)> for BorderStyle {
    open spec fn obeys_from_spec() -> bool {
        true
    }

    open spec fn from_spec(v: (Style, Borders)) -> BorderStyle {
        BorderStyle { borders: v.1, kind: BorderKind::Straight, style: v.0 }
    }
}

/// The given borders and kind of line, the empty style.
impl From<(Borders, BorderKind)> for BorderStyle {
    fn from(v: (Borders, BorderKind)) -> (r: BorderStyle) {
        BorderStyle { borders: v.0, kind: v.1, style: Style::new() }
    }
}

impl vstd::std_specs::convert::FromSpecImpl<(Borders, BorderKind)> for BorderStyle {
    open spec fn obeys_from_spec() -> bool {
        true
    }

    open spec fn from_spec(v: (Borders, BorderKind)) -> BorderStyle {
        BorderStyle { borders: v.0, kind: v.1, style: empty_style() }
    }
}

/// The given borders and kind of line, the empty style.
impl From<(BorderKind, Borders)> for BorderStyle {
    fn from(v: (BorderKind, Borders)) -> (r: BorderStyle) {
        BorderStyle { borders: v.1, kind: v.0, style: Style::new() }
    }
}

impl vstd::std_specs::convert::FromSpecImpl<(BorderKind, Borders)> for BorderStyle {
    open spec fn obeys_from_spec() -> bool {
        true
    }

    open spec fn from_spec(v: (BorderKind, Borders)) -> BorderStyle {
        BorderStyle { borders: v.1, kind: v.0, style: empty_style() }
    }
}

/// The given borders, kind of line and style.
impl From<(Style, Borders, BorderKind)> for BorderStyle {
    fn from(v: (Style, Borders, BorderKind)) -> (r: BorderStyle) {
        BorderStyle { borders: v.1, kind: v.2, style: v.0 }
    }
}

impl vstd::std_specs::convert::FromSpecImpl<(Style, Borders, BorderKind)> for BorderStyle {
    open spec fn obeys_from_spec() -> bool {
        true
    }

    open spec fn from_spec(v: (Style, Borders, BorderKind)) -> BorderStyle {
        BorderStyle { borders: v.1, kind: v.2, style: v.0 }
    }
}

/// The given borders, kind of line and style.
impl From<(Style, BorderKind, Borders)> for BorderStyle {
    fn from(v: (Style, BorderKind, Borders)) -> (r: BorderStyle) {
        BorderStyle { borders: v.2, kind: v.1, style: v.0 }
    }
}

impl vstd::std_specs::convert::FromSpecImpl<(Style, BorderKind, Borders)> for BorderStyle {
    open spec fn obeys_from_spec() -> bool {
        true
    }

    open spec fn from_spec(v: (Style, BorderKind, Borders)) -> BorderStyle {
        BorderStyle { borders: v.2, kind: v.1, style: v.0 }
    }
}

/// The given borders, kind of line and style.
impl From<(Borders, Style, BorderKind)> for BorderStyle {
    fn from(v: (Borders, Style, BorderKind)) -> (r: BorderStyle) {
        BorderStyle { borders: v.0, kind: v.2, style: v.1 }
    }
}

impl vstd::std_specs::convert::FromSpecImpl<(Borders, Style, BorderKind)> for BorderStyle {
    open spec fn obeys_from_spec() -> bool {
        true
    }

    open spec fn from_spec(v: (Borders, Style, BorderKind)) -> BorderStyle {
        BorderStyle { borders: v.0, kind: v.2, style: v.1 }
    }
}

/// The given borders, kind of line and style.
impl From<(Borders, BorderKind, Style)> for BorderStyle {
    fn from(v: (Borders, BorderKind, Style)) -> (r: BorderStyle) {
        BorderStyle { borders: v.0, kind: v.1, style: v.2 }
    }
}

impl vstd::std_specs::convert::FromSpecImpl<(Borders, BorderKind, Style)> for BorderStyle {
    open spec fn obeys_from_spec() -> bool {
        true
    }

    open spec fn from_spec(v: (Borders, BorderKind, Style)) -> BorderStyle {
        BorderStyle { borders: v.0, kind: v.1, style: v.2 }
    }
}

/// The given borders, kind of line and style.
impl From<(BorderKind, Style, Borders)> for BorderStyle {
    fn from(v: (BorderKind, Style, Borders)) -> (r: BorderStyle) {
        BorderStyle { borders: v.2, kind: v.0, style: v.1 }
    }
}

impl vstd::std_specs::convert::FromSpecImpl<(BorderKind, Style, Borders)> for BorderStyle {
    open spec fn obeys_from_spec() -> bool {
        true
    }

    open spec fn from_spec(v: (BorderKind, Style, Borders)) -> BorderStyle {
        BorderStyle { borders: v.2, kind: v.0, style: v.1 }
    }
}

/// The given borders, kind of line and style.
impl From<(BorderKind, Borders, Style)> for BorderStyle {
    fn from(v: (BorderKind, Borders, Style)) -> (r: BorderStyle) {
        BorderStyle { borders: v.1, kind: v.0, style: v.2 }
    }
}

impl vstd::std_specs::convert::FromSpecImpl<(BorderKind, Borders, Style)> for BorderStyle {
    open spec fn obeys_from_spec() -> bool {
        true
    }

    open spec fn from_spec(v: (BorderKind, Borders, Style)) -> BorderStyle {
        BorderStyle { borders: v.1, kind: v.0, style: v.2 }
    }
}

/// Law: converting into a border style keeps what is given (the borders, the kind of
/// line, the style, in any order of a pair) and fills in the rest with every border,
/// straight lines and no style.
pub proof fn lemma_border_style_conversions(b: Borders, k: BorderKind, st: Style)
    ensures
        <BorderStyle as vstd::std_specs::convert::FromSpec<(Borders, BorderKind)>>::from_spec((b, k))
            == (BorderStyle { borders: b, kind: k, style: empty_style() }),
        <BorderStyle as vstd::std_specs::convert::FromSpec<(BorderKind, Borders)>>::from_spec((k, b))
            == (BorderStyle { borders: b, kind: k, style: empty_style() }),
        <BorderStyle as vstd::std_specs::convert::FromSpec<(Borders, Style)>>::from_spec((b, st))
            == (BorderStyle { borders: b, kind: BorderKind::Straight, style: st }),
        <BorderStyle as vstd::std_specs::convert::FromSpec<(Style, Borders)>>::from_spec((st, b))
            == (BorderStyle { borders: b, kind: BorderKind::Straight, style: st }),
        <BorderStyle as vstd::std_specs::convert::FromSpec<Borders>>::from_spec(b)
            == (BorderStyle { borders: b, kind: BorderKind::Straight, style: empty_style() }),
        <BorderStyle as vstd::std_specs::convert::FromSpec<BorderKind>>::from_spec(k)
            == (BorderStyle { borders: Borders { bits: 0xff }, kind: k, style: empty_style() }),
        <BorderStyle as vstd::std_specs::convert::FromSpec<Style>>::from_spec(st)
            == (BorderStyle { borders: Borders { bits: 0xff }, kind: BorderKind::Straight, style: st }),
        <BorderStyle as vstd::std_specs::convert::FromSpec<()>>::from_spec(())
            == (BorderStyle {
                borders: Borders { bits: 0xff },
                kind: BorderKind::Straight,
                style: empty_style(),
            }),
{
}

} // verus!
