//! Colors and text styles of terminal cells, and the line symbols of borders.
use vstd::prelude::*;

use crate::flags::Modifier;

verus! {

/// A terminal color.
#[derive(Clone, Copy, Debug, PartialEq, Eq, Structural, Hash)]
pub enum Color {
    Reset,
    Black,
    Red,
    Green,
    Yellow,
    Blue,
    Magenta,
    Cyan,
    Gray,
    DarkGray,
    LightRed,
    LightGreen,
    LightYellow,
    LightBlue,
    LightMagenta,
    LightCyan,
    White,
    Rgb(u8, u8, u8),
    Indexed(u8),
}

/// The style of a cell: colors and modifiers. Unset parts (`None`, cleared modifier
/// bits) are inherited when the style is patched onto another one.
#[derive(Clone, Copy, Debug, PartialEq, Eq, Structural, Hash)]
pub struct Style {
    pub fg: Option<Color>,
    pub bg: Option<Color>,
    pub underline_color: Option<Color>,
    pub add_modifier: Modifier,
    pub sub_modifier: Modifier,
}

/// `a` if it is set, else `b`.
pub open spec fn or_color(a: Option<Color>, b: Option<Color>) -> Option<Color> {
    match a {
        Some(c) => Some(c),
        None => b,
    }
}

fn color_or(a: Option<Color>, b: Option<Color>) -> (r: Option<Color>)
    ensures
        r == or_color(a, b),
{
    match a {
        Some(c) => Some(c),
        None => b,
    }
}

/// The style without any color or modifier.
pub open spec fn empty_style() -> Style {
    Style {
        fg: None,
        bg: None,
        underline_color: None,
        add_modifier: Modifier { bits: 0 },
        sub_modifier: Modifier { bits: 0 },
    }
}

/// `base` with `other` applied on top: the colors that `other` sets win, and the
/// modifiers that `other` adds or removes override those of `base`.
pub open spec fn patched(base: Style, other: Style) -> Style {
    Style {
        fg: or_color(other.fg, base.fg),
        bg: or_color(other.bg, base.bg),
        underline_color: or_color(other.underline_color, base.underline_color),
        add_modifier: Modifier {
            bits: (base.add_modifier.bits & !other.sub_modifier.bits) | other.add_modifier.bits,
        },
        sub_modifier: Modifier {
            bits: (base.sub_modifier.bits & !other.add_modifier.bits) | other.sub_modifier.bits,
        },
    }
}

impl Default for Style {
    fn default() -> (r: Style)
        ensures
            r == empty_style(),
    {
        Style::new()
    }
}

impl Style {
    /// The style without any color or modifier.
    pub fn new() -> (r: Style)
        ensures
            r == empty_style(),
    {
        Style {
            fg: None,
            bg: None,
            underline_color: None,
            add_modifier: Modifier::empty(),
            sub_modifier: Modifier::empty(),
        }
    }

    /// The style with the foreground color `color`.
    pub fn fg(self, color: Color) -> (r: Style)
        ensures
            r == (Style { fg: Some(color), ..self }),
    {
        Style { fg: Some(color), ..self }
    }

    /// The style with the background color `color`.
    pub fn bg(self, color: Color) -> (r: Style)
        ensures
            r == (Style { bg: Some(color), ..self }),
    {
        Style { bg: Some(color), ..self }
    }

    /// The style with `modifier` added (and no longer removed).
    pub open spec fn with_modifier(self, modifier: Modifier) -> Style {
        Style {
            add_modifier: Modifier { bits: self.add_modifier.bits | modifier.bits },
            sub_modifier: Modifier { bits: self.sub_modifier.bits & !modifier.bits },
            ..self
        }
    }

    /// The style with `modifier` added (and no longer removed).
    pub fn add_modifier(self, modifier: Modifier) -> (r: Style)
        ensures
            r == self.with_modifier(modifier),
    {
        Style {
            add_modifier: self.add_modifier.union(modifier),
            sub_modifier: self.sub_modifier.difference(modifier),
            ..self
        }
    }

    /// `self` with `other` applied on top (see [`patched`]).
    pub fn patch(self, other: Style) -> (r: Style)
        ensures
            r == patched(self, other),
    {
        Style {
            fg: color_or(other.fg, self.fg),
            bg: color_or(other.bg, self.bg),
            underline_color: color_or(other.underline_color, self.underline_color),
            add_modifier: self.add_modifier.difference(other.sub_modifier).union(
                other.add_modifier,
            ),
            sub_modifier: self.sub_modifier.difference(other.add_modifier).union(
                other.sub_modifier,
            ),
        }
    }
}

/// Law: patching with the empty style changes nothing, and patching the empty style
/// with a style whose added and removed modifiers are disjoint gives that style.
pub proof fn lemma_patch_identity(s: Style)
    ensures
        patched(s, empty_style()) == s,
        (s.add_modifier.bits & s.sub_modifier.bits == 0) ==> patched(empty_style(), s) == s,
{
    let a = s.add_modifier.bits;
    let b = s.sub_modifier.bits;
    assert((a & !0u16) | 0u16 == a) by (bit_vector);
    assert((b & !0u16) | 0u16 == b) by (bit_vector);
    assert((0u16 & !b) | a == a) by (bit_vector);
    assert(a & b == 0 ==> (0u16 & !a) | b == b) by (bit_vector);
}

/// Law: patching is associative, `(a.patch(b)).patch(c) == a.patch(b.patch(c))`.
pub proof fn lemma_patch_assoc(a: Style, b: Style, c: Style)
    ensures
        patched(patched(a, b), c) == patched(a, patched(b, c)),
{
    let (aa, asub) = (a.add_modifier.bits, a.sub_modifier.bits);
    let (ba, bsub) = (b.add_modifier.bits, b.sub_modifier.bits);
    let (ca, csub) = (c.add_modifier.bits, c.sub_modifier.bits);
    assert((((aa & !bsub) | ba) & !csub) | ca == (aa & !((bsub & !ca) | csub)) | ((ba & !csub)
        | ca)) by (bit_vector);
    assert((((asub & !ba) | bsub) & !ca) | csub == (asub & !((ba & !csub) | ca)) | ((bsub & !ca)
        | csub)) by (bit_vector);
}

/// Law: patching `other` onto `base` lets every color that `other` sets win, and keeps
/// the colors of `base` where `other` sets none; the modifiers that `other` adds are
/// added, those it removes (and does not add) are removed, and every other modifier of
/// `base` stays as it was.
pub proof fn lemma_patch_overrides(base: Style, other: Style, c: Color)
    ensures
        other.fg == Some(c) ==> patched(base, other).fg == Some(c),
        other.bg == Some(c) ==> patched(base, other).bg == Some(c),
        other.underline_color == Some(c) ==> patched(base, other).underline_color == Some(c),
        other.fg is None ==> patched(base, other).fg == base.fg,
        other.bg is None ==> patched(base, other).bg == base.bg,
        other.underline_color is None ==> patched(base, other).underline_color
            == base.underline_color,
        patched(base, other).add_modifier.bits & other.add_modifier.bits == other.add_modifier.bits,
        patched(base, other).add_modifier.bits & (other.sub_modifier.bits & !other.add_modifier.bits)
            == 0,
        patched(base, other).add_modifier.bits & !(other.add_modifier.bits | other.sub_modifier.bits)
            == base.add_modifier.bits & !(other.add_modifier.bits | other.sub_modifier.bits),
        patched(base, other).sub_modifier.bits & other.sub_modifier.bits == other.sub_modifier.bits,
        patched(base, other).sub_modifier.bits & !(other.add_modifier.bits | other.sub_modifier.bits)
            == base.sub_modifier.bits & !(other.add_modifier.bits | other.sub_modifier.bits),
{
    let (ba, bs) = (base.add_modifier.bits, base.sub_modifier.bits);
    let (oa, os) = (other.add_modifier.bits, other.sub_modifier.bits);
    assert(((ba & !os) | oa) & oa == oa && ((ba & !os) | oa) & (os & !oa) == 0 && ((ba & !os) | oa)
        & !(oa | os) == ba & !(oa | os) && ((bs & !oa) | os) & os == os && ((bs & !oa) | os) & !(oa
        | os) == bs & !(oa | os)) by (bit_vector);
}

/// The kind of line that a border is drawn with.
#[derive(Clone, Copy, Debug, PartialEq, Eq, Structural, Hash)]
pub enum BorderKind {
    Straight,
    Rounded,
    DoubleStraight,
    ThickStraight,
}

impl Default for BorderKind {
    fn default() -> (r: BorderKind)
        ensures
            r == BorderKind::Straight,
    {
        BorderKind::Straight
    }
}

/// A part of a line set: the symbol for a straight piece or a corner.
#[derive(Clone, Copy, Debug, PartialEq, Eq, Structural, Hash)]
pub enum LinePart {
    Vertical,
    Horizontal,
    TopLeft,
    TopRight,
    BottomLeft,
    BottomRight,
}

/// The symbol of a cell drawn by a border.
#[derive(Clone, Copy, Debug, PartialEq, Eq, Structural, Hash)]
pub enum Symbol {
    /// A line piece of the given kind of line.
    Line(BorderKind, LinePart),
    /// A dot, drawn when a border has no room for lines.
    Dot,
}

} // verus!
