//! The margin view and the ways to describe a margin.
use vstd::prelude::*;

use crate::flags::{ChangeFlags, Position};
use crate::widget::margin::Margin as MarginWidget;
use crate::widget::pod::Widget;

verus! {

/// A margin: how many cells, and on which sides.
#[derive(Clone, Copy, Debug, PartialEq, Eq, Structural, Hash)]
pub struct MarginStyle {
    pub amount: u16,
    pub position: Position,
}

impl Default for MarginStyle {
    fn default() -> (r: MarginStyle)
        ensures
            r.amount == 0,
            r.position.bits == 0,
    {
        MarginStyle { amount: 0, position: Position::empty() }
    }
}

/// `amount` cells on all sides.
impl From<u16> for MarginStyle {
    fn from(amount: u16) -> (r: MarginStyle) {
        MarginStyle { amount, position: Position::all() }
    }
}

impl vstd::std_specs::convert::FromSpecImpl<u16> for MarginStyle {
    open spec fn obeys_from_spec() -> bool {
        true
    }

    open spec fn from_spec(v: u16) -> MarginStyle {
        MarginStyle { amount: v, position: Position { bits: 0xf } }
    }
}

/// `amount` cells on the sides in `position`.
impl From<(u16, Position)> for MarginStyle {
    fn from(v: (u16, Position)) -> (r: MarginStyle) {
        MarginStyle { amount: v.0, position: v.1 }
    }
}

impl vstd::std_specs::convert::FromSpecImpl<(u16, Position)> for MarginStyle {
    open spec fn obeys_from_spec() -> bool {
        true
    }

    open spec fn from_spec(v: (u16, Position)) -> MarginStyle {
        MarginStyle { amount: v.0, position: v.1 }
    }
}

/// `amount` cells on the sides in `position`, written the other way round.
impl From<(Position, u16)> for MarginStyle {
    fn from(v: (Position, u16)) -> (r: MarginStyle) {
        MarginStyle { amount: v.1, position: v.0 }
    }
}

impl vstd::std_specs::convert::FromSpecImpl<(Position, u16)> for MarginStyle {
    open spec fn obeys_from_spec() -> bool {
        true
    }

    open spec fn from_spec(v: (Position, u16)) -> MarginStyle {
        MarginStyle { amount: v.1, position: v.0 }
    }
}

/// A view that puts a margin around its content.
pub struct Margin<V> {
    pub content: V,
    pub amount: u16,
    pub position: Position,
}

impl<V> Margin<V> {
    /// `content` with the margin that `style` describes.
    pub fn new(content: V, style: MarginStyle) -> (r: Margin<V>)
        ensures
            r.content == content,
            r.amount == style.amount,
            r.position == style.position,
    {
        Margin { content, amount: style.amount, position: style.position }
    }

    /// Brings the margin widget up to date with this view: sets its amount and its
    /// position and says whether the layout has to be computed again.
    pub fn update_element<W: Widget>(&self, element: &mut MarginWidget<W>) -> (r: ChangeFlags)
        ensures
            final(element).amount == self.amount,
            final(element).position == self.position,
            final(element).content == old(element).content,
            r.bits == (if old(element).amount != self.amount || old(element).position
                != self.position {
                0x2u8
            } else {
                0u8
            }),
    {
        let a = element.set_amount(self.amount);
        let p = element.set_position(self.position);
        let r = a.union(p);
        assert(0u8 | 0u8 == 0u8 && 0x2u8 | 0u8 == 0x2u8 && 0u8 | 0x2u8 == 0x2u8 && 0x2u8 | 0x2u8
            == 0x2u8) by (bit_vector);
        r
    }
}

} // verus!
