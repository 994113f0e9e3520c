//! Sets of flags: what a change requires of the widget tree, what a pod keeps about its
//! widget, which borders and sides are drawn, which dimensions to fill, which mouse
//! buttons to catch, and the modifier keys and text modifiers.
use vstd::prelude::*;

verus! {

/// Describes which kinds of work a change requires from the widget tree (update, layout, paint, tree structure).
#[derive(Clone, Copy, Debug, PartialEq, Eq, Structural, Hash)]
pub struct ChangeFlags {
    pub bits: u8,
}

impl View for ChangeFlags {
    type V = u8;

    open spec fn view(&self) -> u8 {
        self.bits
    }
}

impl Default for ChangeFlags {
    fn default() -> (r: Self)
        ensures
            r.bits == 0,
    {
        ChangeFlags { bits: 0 }
    }
}

impl ChangeFlags {
    /// Something needs an update.
    pub fn update() -> (r: Self)
        ensures
            r.bits == 0x1,
    {
        ChangeFlags { bits: 0x1 }
    }

    /// The layout needs to be recomputed.
    pub fn layout() -> (r: Self)
        ensures
            r.bits == 0x2,
    {
        ChangeFlags { bits: 0x2 }
    }

    /// The widget needs to be painted again.
    pub fn paint() -> (r: Self)
        ensures
            r.bits == 0x8,
    {
        ChangeFlags { bits: 0x8 }
    }

    /// The structure of the widget tree changed.
    pub fn tree() -> (r: Self)
        ensures
            r.bits == 0x10,
    {
        ChangeFlags { bits: 0x10 }
    }

    /// The empty set of flags.
    pub fn empty() -> (r: Self)
        ensures
            r.bits == 0,
    {
        ChangeFlags { bits: 0 }
    }

    /// Every defined flag.
    pub fn all() -> (r: Self)
        ensures
            r.bits == 0x1b,
    {
        ChangeFlags { bits: 0x1b }
    }

    /// The raw bits.
    pub fn bits(&self) -> (r: u8)
        ensures
            r == self.bits,
    {
        self.bits
    }

    /// The flags of `bits`, dropping the bits that no flag defines.
    pub fn from_bits_truncate(bits: u8) -> (r: Self)
        ensures
            r.bits == bits & 0x1b,
    {
        ChangeFlags { bits: bits & 0x1b }
    }

    /// The flags of `bits`, keeping every bit.
    pub fn from_bits_retain(bits: u8) -> (r: Self)
        ensures
            r.bits == bits,
    {
        ChangeFlags { bits }
    }

    /// Whether no flag is set.
    pub fn is_empty(&self) -> (r: bool)
        ensures
            r == (self.bits == 0),
    {
        self.bits == 0
    }

    /// Whether every flag of `other` is set in `self`.
    pub fn contains(&self, other: Self) -> (r: bool)
        ensures
            r == (self.bits & other.bits == other.bits),
    {
        self.bits & other.bits == other.bits
    }

    /// Whether `self` and `other` share a flag.
    pub fn intersects(&self, other: Self) -> (r: bool)
        ensures
            r == (self.bits & other.bits != 0),
    {
        self.bits & other.bits != 0
    }

    /// The flags set in `self` or in `other`.
    pub fn union(self, other: Self) -> (r: Self)
        ensures
            r.bits == self.bits | other.bits,
    {
        ChangeFlags { bits: self.bits | other.bits }
    }

    /// The flags set in both `self` and `other`.
    pub fn intersection(self, other: Self) -> (r: Self)
        ensures
            r.bits == self.bits & other.bits,
    {
        ChangeFlags { bits: self.bits & other.bits }
    }

    /// The flags set in `self` but not in `other`.
    pub fn difference(self, other: Self) -> (r: Self)
        ensures
            r.bits == self.bits & !other.bits,
    {
        ChangeFlags { bits: self.bits & !other.bits }
    }

    /// Sets the flags of `other`.
    pub fn insert(&mut self, other: Self)
        ensures
            final(self).bits == old(self).bits | other.bits,
    {
        self.bits = self.bits | other.bits;
    }

    /// Clears the flags of `other`.
    pub fn remove(&mut self, other: Self)
        ensures
            final(self).bits == old(self).bits & !other.bits,
    {
        self.bits = self.bits & !other.bits;
    }

    /// Sets (`value == true`) or clears (`value == false`) the flags of `other`.
    pub fn set(&mut self, other: Self, value: bool)
        ensures
            final(self).bits == (if value { old(self).bits | other.bits } else { old(self).bits & !other.bits }),
    {
        if value {
            self.insert(other);
        } else {
            self.remove(other);
        }
    }
}

/// The state bits that a [`Pod`](crate::widget::pod::Pod) keeps about its widget. The low bits have the values of their counterparts in [`ChangeFlags`].
#[derive(Clone, Copy, Debug, PartialEq, Eq, Structural, Hash)]
pub struct PodFlags {
    pub bits: u32,
}

impl View for PodFlags {
    type V = u32;

    open spec fn view(&self) -> u32 {
        self.bits
    }
}

impl Default for PodFlags {
    fn default() -> (r: Self)
        ensures
            r.bits == 0,
    {
        PodFlags { bits: 0 }
    }
}

impl PodFlags {
    /// An update was requested.
    pub fn request_update() -> (r: Self)
        ensures
            r.bits == 0x1,
    {
        PodFlags { bits: 0x1 }
    }

    /// A layout pass was requested.
    pub fn request_layout() -> (r: Self)
        ensures
            r.bits == 0x2,
    {
        PodFlags { bits: 0x2 }
    }

    /// A paint pass was requested.
    pub fn request_paint() -> (r: Self)
        ensures
            r.bits == 0x8,
    {
        PodFlags { bits: 0x8 }
    }

    /// The subtree changed its structure.
    pub fn tree_changed() -> (r: Self)
        ensures
            r.bits == 0x10,
    {
        PodFlags { bits: 0x10 }
    }

    /// The position of the widget relative to the window changed.
    pub fn view_context_changed() -> (r: Self)
        ensures
            r.bits == 0x100,
    {
        PodFlags { bits: 0x100 }
    }

    /// The mouse is over the widget.
    pub fn is_hot() -> (r: Self)
        ensures
            r.bits == 0x200,
    {
        PodFlags { bits: 0x200 }
    }

    /// The widget captured the mouse (e.g. a pressed button).
    pub fn is_active() -> (r: Self)
        ensures
            r.bits == 0x400,
    {
        PodFlags { bits: 0x400 }
    }

    /// The widget or a descendant is active.
    pub fn has_active() -> (r: Self)
        ensures
            r.bits == 0x800,
    {
        PodFlags { bits: 0x800 }
    }

    /// The widget was laid out and waits for its origin.
    pub fn needs_set_origin() -> (r: Self)
        ensures
            r.bits == 0x1000,
    {
        PodFlags { bits: 0x1000 }
    }

    /// Another animation step was requested (the application then renders again).
    pub fn request_animation() -> (r: Self)
        ensures
            r.bits == 0x2000,
    {
        PodFlags { bits: 0x2000 }
    }

    /// The flags that are propagated from a child to its parent.
    pub fn upward_flags() -> (r: Self)
        ensures
            r.bits == 0x291b,
    {
        PodFlags { bits: 0x291b }
    }

    /// The flags of a freshly created pod.
    pub fn init_flags() -> (r: Self)
        ensures
            r.bits == 0x1b,
    {
        PodFlags { bits: 0x1b }
    }

    /// The empty set of flags.
    pub fn empty() -> (r: Self)
        ensures
            r.bits == 0,
    {
        PodFlags { bits: 0 }
    }

    /// Every defined flag.
    pub fn all() -> (r: Self)
        ensures
            r.bits == 0x3f1b,
    {
        PodFlags { bits: 0x3f1b }
    }

    /// The raw bits.
    pub fn bits(&self) -> (r: u32)
        ensures
            r == self.bits,
    {
        self.bits
    }

    /// The flags of `bits`, dropping the bits that no flag defines.
    pub fn from_bits_truncate(bits: u32) -> (r: Self)
        ensures
            r.bits == bits & 0x3f1b,
    {
        PodFlags { bits: bits & 0x3f1b }
    }

    /// The flags of `bits`, keeping every bit.
    pub fn from_bits_retain(bits: u32) -> (r: Self)
        ensures
            r.bits == bits,
    {
        PodFlags { bits }
    }

    /// Whether no flag is set.
    pub fn is_empty(&self) -> (r: bool)
        ensures
            r == (self.bits == 0),
    {
        self.bits == 0
    }

    /// Whether every flag of `other` is set in `self`.
    pub fn contains(&self, other: Self) -> (r: bool)
        ensures
            r == (self.bits & other.bits == other.bits),
    {
        self.bits & other.bits == other.bits
    }

    /// Whether `self` and `other` share a flag.
    pub fn intersects(&self, other: Self) -> (r: bool)
        ensures
            r == (self.bits & other.bits != 0),
    {
        self.bits & other.bits != 0
    }

    /// The flags set in `self` or in `other`.
    pub fn union(self, other: Self) -> (r: Self)
        ensures
            r.bits == self.bits | other.bits,
    {
        PodFlags { bits: self.bits | other.bits }
    }

    /// The flags set in both `self` and `other`.
    pub fn intersection(self, other: Self) -> (r: Self)
        ensures
            r.bits == self.bits & other.bits,
    {
        PodFlags { bits: self.bits & other.bits }
    }

    /// The flags set in `self` but not in `other`.
    pub fn difference(self, other: Self) -> (r: Self)
        ensures
            r.bits == self.bits & !other.bits,
    {
        PodFlags { bits: self.bits & !other.bits }
    }

    /// Sets the flags of `other`.
    pub fn insert(&mut self, other: Self)
        ensures
            final(self).bits == old(self).bits | other.bits,
    {
        self.bits = self.bits | other.bits;
    }

    /// Clears the flags of `other`.
    pub fn remove(&mut self, other: Self)
        ensures
            final(self).bits == old(self).bits & !other.bits,
    {
        self.bits = self.bits & !other.bits;
    }

    /// Sets (`value == true`) or clears (`value == false`) the flags of `other`.
    pub fn set(&mut self, other: Self, value: bool)
        ensures
            final(self).bits == (if value { old(self).bits | other.bits } else { old(self).bits & !other.bits }),
    {
        if value {
            self.insert(other);
        } else {
            self.remove(other);
        }
    }
}

/// Bitflags that can be composed to set the visible borders of a bordered widget.
#[derive(Clone, Copy, Debug, PartialEq, Eq, Structural, Hash)]
pub struct Borders {
    pub bits: u8,
}

impl View for Borders {
    type V = u8;

    open spec fn view(&self) -> u8 {
        self.bits
    }
}

impl Default for Borders {
    fn default() -> (r: Self)
        ensures
            r.bits == 0,
    {
        Borders { bits: 0 }
    }
}

impl Borders {
    /// Show no border (default).
    pub fn none() -> (r: Self)
        ensures
            r.bits == 0x0,
    {
        Borders { bits: 0x0 }
    }

    /// Show the top border.
    pub fn top() -> (r: Self)
        ensures
            r.bits == 0x1,
    {
        Borders { bits: 0x1 }
    }

    /// Show the right border.
    pub fn right() -> (r: Self)
        ensures
            r.bits == 0x2,
    {
        Borders { bits: 0x2 }
    }

    /// Show the bottom border.
    pub fn bottom() -> (r: Self)
        ensures
            r.bits == 0x4,
    {
        Borders { bits: 0x4 }
    }

    /// Show the left border.
    pub fn left() -> (r: Self)
        ensures
            r.bits == 0x8,
    {
        Borders { bits: 0x8 }
    }

    /// Show the top left corner.
    pub fn top_left_corner() -> (r: Self)
        ensures
            r.bits == 0x10,
    {
        Borders { bits: 0x10 }
    }

    /// Show the top right corner.
    pub fn top_right_corner() -> (r: Self)
        ensures
            r.bits == 0x20,
    {
        Borders { bits: 0x20 }
    }

    /// Show the bottom left corner.
    pub fn bottom_left_corner() -> (r: Self)
        ensures
            r.bits == 0x40,
    {
        Borders { bits: 0x40 }
    }

    /// Show the bottom right corner.
    pub fn bottom_right_corner() -> (r: Self)
        ensures
            r.bits == 0x80,
    {
        Borders { bits: 0x80 }
    }

    /// Show the top corners.
    pub fn top_corners() -> (r: Self)
        ensures
            r.bits == 0x30,
    {
        Borders { bits: 0x30 }
    }

    /// Show the bottom corners.
    pub fn bottom_corners() -> (r: Self)
        ensures
            r.bits == 0xc0,
    {
        Borders { bits: 0xc0 }
    }

    /// Show the left corners.
    pub fn left_corners() -> (r: Self)
        ensures
            r.bits == 0x50,
    {
        Borders { bits: 0x50 }
    }

    /// Show the right corners.
    pub fn right_corners() -> (r: Self)
        ensures
            r.bits == 0xa0,
    {
        Borders { bits: 0xa0 }
    }

    /// Show the top border including corners.
    pub fn top_with_corners() -> (r: Self)
        ensures
            r.bits == 0x31,
    {
        Borders { bits: 0x31 }
    }

    /// Show the right border including corners.
    pub fn right_with_corners() -> (r: Self)
        ensures
            r.bits == 0xa2,
    {
        Borders { bits: 0xa2 }
    }

    /// Show the bottom border including corners.
    pub fn bottom_with_corners() -> (r: Self)
        ensures
            r.bits == 0xc4,
    {
        Borders { bits: 0xc4 }
    }

    /// Show the left border including corners.
    pub fn left_with_corners() -> (r: Self)
        ensures
            r.bits == 0x58,
    {
        Borders { bits: 0x58 }
    }

    /// Show top and bottom borders.
    pub fn horizontal() -> (r: Self)
        ensures
            r.bits == 0x5,
    {
        Borders { bits: 0x5 }
    }

    /// Show top and bottom borders including their corners.
    pub fn horizontal_with_corners() -> (r: Self)
        ensures
            r.bits == 0xf5,
    {
        Borders { bits: 0xf5 }
    }

    /// Show left and right borders.
    pub fn vertical() -> (r: Self)
        ensures
            r.bits == 0xa,
    {
        Borders { bits: 0xa }
    }

    /// Show left and right borders including their corners.
    pub fn vertical_with_corners() -> (r: Self)
        ensures
            r.bits == 0xfa,
    {
        Borders { bits: 0xfa }
    }

    /// Show all borders.
    pub fn all_borders() -> (r: Self)
        ensures
            r.bits == 0xf,
    {
        Borders { bits: 0xf }
    }

    /// Show all corners.
    pub fn all_corners() -> (r: Self)
        ensures
            r.bits == 0xf0,
    {
        Borders { bits: 0xf0 }
    }

    /// Show all borders including corners.
    pub fn all() -> (r: Self)
        ensures
            r.bits == 0xff,
    {
        Borders { bits: 0xff }
    }

    /// The empty set of flags.
    pub fn empty() -> (r: Self)
        ensures
            r.bits == 0,
    {
        Borders { bits: 0 }
    }

    /// The raw bits.
    pub fn bits(&self) -> (r: u8)
        ensures
            r == self.bits,
    {
        self.bits
    }

    /// The flags of `bits`, dropping the bits that no flag defines.
    pub fn from_bits_truncate(bits: u8) -> (r: Self)
        ensures
            r.bits == bits & 0xff,
    {
        Borders { bits: bits & 0xff }
    }

    /// The flags of `bits`, keeping every bit.
    pub fn from_bits_retain(bits: u8) -> (r: Self)
        ensures
            r.bits == bits,
    {
        Borders { bits }
    }

    /// Whether no flag is set.
    pub fn is_empty(&self) -> (r: bool)
        ensures
            r == (self.bits == 0),
    {
        self.bits == 0
    }

    /// Whether every flag of `other` is set in `self`.
    pub fn contains(&self, other: Self) -> (r: bool)
        ensures
            r == (self.bits & other.bits == other.bits),
    {
        self.bits & other.bits == other.bits
    }

    /// Whether `self` and `other` share a flag.
    pub fn intersects(&self, other: Self) -> (r: bool)
        ensures
            r == (self.bits & other.bits != 0),
    {
        self.bits & other.bits != 0
    }

    /// The flags set in `self` or in `other`.
    pub fn union(self, other: Self) -> (r: Self)
        ensures
            r.bits == self.bits | other.bits,
    {
        Borders { bits: self.bits | other.bits }
    }

    /// The flags set in both `self` and `other`.
    pub fn intersection(self, other: Self) -> (r: Self)
        ensures
            r.bits == self.bits & other.bits,
    {
        Borders { bits: self.bits & other.bits }
    }

    /// The flags set in `self` but not in `other`.
    pub fn difference(self, other: Self) -> (r: Self)
        ensures
            r.bits == self.bits & !other.bits,
    {
        Borders { bits: self.bits & !other.bits }
    }

    /// Sets the flags of `other`.
    pub fn insert(&mut self, other: Self)
        ensures
            final(self).bits == old(self).bits | other.bits,
    {
        self.bits = self.bits | other.bits;
    }

    /// Clears the flags of `other`.
    pub fn remove(&mut self, other: Self)
        ensures
            final(self).bits == old(self).bits & !other.bits,
    {
        self.bits = self.bits & !other.bits;
    }

    /// Sets (`value == true`) or clears (`value == false`) the flags of `other`.
    pub fn set(&mut self, other: Self, value: bool)
        ensures
            final(self).bits == (if value { old(self).bits | other.bits } else { old(self).bits & !other.bits }),
    {
        if value {
            self.insert(other);
        } else {
            self.remove(other);
        }
    }
}

/// Bitflags that select the sides of a widget (e.g. where a margin is applied).
#[derive(Clone, Copy, Debug, PartialEq, Eq, Structural, Hash)]
pub struct Position {
    pub bits: u8,
}

impl View for Position {
    type V = u8;

    open spec fn view(&self) -> u8 {
        self.bits
    }
}

impl Default for Position {
    fn default() -> (r: Self)
        ensures
            r.bits == 0,
    {
        Position { bits: 0 }
    }
}

impl Position {
    /// The top side.
    pub fn top() -> (r: Self)
        ensures
            r.bits == 0x1,
    {
        Position { bits: 0x1 }
    }

    /// The right side.
    pub fn right() -> (r: Self)
        ensures
            r.bits == 0x2,
    {
        Position { bits: 0x2 }
    }

    /// The bottom side.
    pub fn bottom() -> (r: Self)
        ensures
            r.bits == 0x4,
    {
        Position { bits: 0x4 }
    }

    /// The left side.
    pub fn left() -> (r: Self)
        ensures
            r.bits == 0x8,
    {
        Position { bits: 0x8 }
    }

    /// The left and right sides.
    pub fn horizontal() -> (r: Self)
        ensures
            r.bits == 0xa,
    {
        Position { bits: 0xa }
    }

    /// The top and bottom sides.
    pub fn vertical() -> (r: Self)
        ensures
            r.bits == 0x5,
    {
        Position { bits: 0x5 }
    }

    /// All sides.
    pub fn all() -> (r: Self)
        ensures
            r.bits == 0xf,
    {
        Position { bits: 0xf }
    }

    /// The empty set of flags.
    pub fn empty() -> (r: Self)
        ensures
            r.bits == 0,
    {
        Position { bits: 0 }
    }

    /// The raw bits.
    pub fn bits(&self) -> (r: u8)
        ensures
            r == self.bits,
    {
        self.bits
    }

    /// The flags of `bits`, dropping the bits that no flag defines.
    pub fn from_bits_truncate(bits: u8) -> (r: Self)
        ensures
            r.bits == bits & 0xf,
    {
        Position { bits: bits & 0xf }
    }

    /// The flags of `bits`, keeping every bit.
    pub fn from_bits_retain(bits: u8) -> (r: Self)
        ensures
            r.bits == bits,
    {
        Position { bits }
    }

    /// Whether no flag is set.
    pub fn is_empty(&self) -> (r: bool)
        ensures
            r == (self.bits == 0),
    {
        self.bits == 0
    }

    /// Whether every flag of `other` is set in `self`.
    pub fn contains(&self, other: Self) -> (r: bool)
        ensures
            r == (self.bits & other.bits == other.bits),
    {
        self.bits & other.bits == other.bits
    }

    /// Whether `self` and `other` share a flag.
    pub fn intersects(&self, other: Self) -> (r: bool)
        ensures
            r == (self.bits & other.bits != 0),
    {
        self.bits & other.bits != 0
    }

    /// The flags set in `self` or in `other`.
    pub fn union(self, other: Self) -> (r: Self)
        ensures
            r.bits == self.bits | other.bits,
    {
        Position { bits: self.bits | other.bits }
    }

    /// The flags set in both `self` and `other`.
    pub fn intersection(self, other: Self) -> (r: Self)
        ensures
            r.bits == self.bits & other.bits,
    {
        Position { bits: self.bits & other.bits }
    }

    /// The flags set in `self` but not in `other`.
    pub fn difference(self, other: Self) -> (r: Self)
        ensures
            r.bits == self.bits & !other.bits,
    {
        Position { bits: self.bits & !other.bits }
    }

    /// Sets the flags of `other`.
    pub fn insert(&mut self, other: Self)
        ensures
            final(self).bits == old(self).bits | other.bits,
    {
        self.bits = self.bits | other.bits;
    }

    /// Clears the flags of `other`.
    pub fn remove(&mut self, other: Self)
        ensures
            final(self).bits == old(self).bits & !other.bits,
    {
        self.bits = self.bits & !other.bits;
    }

    /// Sets (`value == true`) or clears (`value == false`) the flags of `other`.
    pub fn set(&mut self, other: Self, value: bool)
        ensures
            final(self).bits == (if value { old(self).bits | other.bits } else { old(self).bits & !other.bits }),
    {
        if value {
            self.insert(other);
        } else {
            self.remove(other);
        }
    }
}

/// Bitflags that select the dimensions a widget fills.
#[derive(Clone, Copy, Debug, PartialEq, Eq, Structural, Hash)]
pub struct Fill {
    pub bits: u8,
}

impl View for Fill {
    type V = u8;

    open spec fn view(&self) -> u8 {
        self.bits
    }
}

impl Default for Fill {
    fn default() -> (r: Self)
        ensures
            r.bits == 0,
    {
        Fill { bits: 0 }
    }
}

impl Fill {
    /// Fill the width.
    pub fn width() -> (r: Self)
        ensures
            r.bits == 0x1,
    {
        Fill { bits: 0x1 }
    }

    /// Fill the height.
    pub fn height() -> (r: Self)
        ensures
            r.bits == 0x2,
    {
        Fill { bits: 0x2 }
    }

    /// Fill width and height.
    pub fn all() -> (r: Self)
        ensures
            r.bits == 0x3,
    {
        Fill { bits: 0x3 }
    }

    /// The empty set of flags.
    pub fn empty() -> (r: Self)
        ensures
            r.bits == 0,
    {
        Fill { bits: 0 }
    }

    /// The raw bits.
    pub fn bits(&self) -> (r: u8)
        ensures
            r == self.bits,
    {
        self.bits
    }

    /// The flags of `bits`, dropping the bits that no flag defines.
    pub fn from_bits_truncate(bits: u8) -> (r: Self)
        ensures
            r.bits == bits & 0x3,
    {
        Fill { bits: bits & 0x3 }
    }

    /// The flags of `bits`, keeping every bit.
    pub fn from_bits_retain(bits: u8) -> (r: Self)
        ensures
            r.bits == bits,
    {
        Fill { bits }
    }

    /// Whether no flag is set.
    pub fn is_empty(&self) -> (r: bool)
        ensures
            r == (self.bits == 0),
    {
        self.bits == 0
    }

    /// Whether every flag of `other` is set in `self`.
    pub fn contains(&self, other: Self) -> (r: bool)
        ensures
            r == (self.bits & other.bits == other.bits),
    {
        self.bits & other.bits == other.bits
    }

    /// Whether `self` and `other` share a flag.
    pub fn intersects(&self, other: Self) -> (r: bool)
        ensures
            r == (self.bits & other.bits != 0),
    {
        self.bits & other.bits != 0
    }

    /// The flags set in `self` or in `other`.
    pub fn union(self, other: Self) -> (r: Self)
        ensures
            r.bits == self.bits | other.bits,
    {
        Fill { bits: self.bits | other.bits }
    }

    /// The flags set in both `self` and `other`.
    pub fn intersection(self, other: Self) -> (r: Self)
        ensures
            r.bits == self.bits & other.bits,
    {
        Fill { bits: self.bits & other.bits }
    }

    /// The flags set in `self` but not in `other`.
    pub fn difference(self, other: Self) -> (r: Self)
        ensures
            r.bits == self.bits & !other.bits,
    {
        Fill { bits: self.bits & !other.bits }
    }

    /// Sets the flags of `other`.
    pub fn insert(&mut self, other: Self)
        ensures
            final(self).bits == old(self).bits | other.bits,
    {
        self.bits = self.bits | other.bits;
    }

    /// Clears the flags of `other`.
    pub fn remove(&mut self, other: Self)
        ensures
            final(self).bits == old(self).bits & !other.bits,
    {
        self.bits = self.bits & !other.bits;
    }

    /// Sets (`value == true`) or clears (`value == false`) the flags of `other`.
    pub fn set(&mut self, other: Self, value: bool)
        ensures
            final(self).bits == (if value { old(self).bits | other.bits } else { old(self).bits & !other.bits }),
    {
        if value {
            self.insert(other);
        } else {
            self.remove(other);
        }
    }
}

/// Bitflags that select the mouse buttons whose presses a widget captures.
#[derive(Clone, Copy, Debug, PartialEq, Eq, Structural, Hash)]
pub struct CatchMouseButton {
    pub bits: u8,
}

impl View for CatchMouseButton {
    type V = u8;

    open spec fn view(&self) -> u8 {
        self.bits
    }
}

impl Default for CatchMouseButton {
    fn default() -> (r: Self)
        ensures
            r.bits == 0,
    {
        CatchMouseButton { bits: 0 }
    }
}

impl CatchMouseButton {
    /// The left button.
    pub fn left() -> (r: Self)
        ensures
            r.bits == 0x1,
    {
        CatchMouseButton { bits: 0x1 }
    }

    /// The right button.
    pub fn right() -> (r: Self)
        ensures
            r.bits == 0x2,
    {
        CatchMouseButton { bits: 0x2 }
    }

    /// The middle button.
    pub fn middle() -> (r: Self)
        ensures
            r.bits == 0x4,
    {
        CatchMouseButton { bits: 0x4 }
    }

    /// The empty set of flags.
    pub fn empty() -> (r: Self)
        ensures
            r.bits == 0,
    {
        CatchMouseButton { bits: 0 }
    }

    /// Every defined flag.
    pub fn all() -> (r: Self)
        ensures
            r.bits == 0x7,
    {
        CatchMouseButton { bits: 0x7 }
    }

    /// The raw bits.
    pub fn bits(&self) -> (r: u8)
        ensures
            r == self.bits,
    {
        self.bits
    }

    /// The flags of `bits`, dropping the bits that no flag defines.
    pub fn from_bits_truncate(bits: u8) -> (r: Self)
        ensures
            r.bits == bits & 0x7,
    {
        CatchMouseButton { bits: bits & 0x7 }
    }

    /// The flags of `bits`, keeping every bit.
    pub fn from_bits_retain(bits: u8) -> (r: Self)
        ensures
            r.bits == bits,
    {
        CatchMouseButton { bits }
    }

    /// Whether no flag is set.
    pub fn is_empty(&self) -> (r: bool)
        ensures
            r == (self.bits == 0),
    {
        self.bits == 0
    }

    /// Whether every flag of `other` is set in `self`.
    pub fn contains(&self, other: Self) -> (r: bool)
        ensures
            r == (self.bits & other.bits == other.bits),
    {
        self.bits & other.bits == other.bits
    }

    /// Whether `self` and `other` share a flag.
    pub fn intersects(&self, other: Self) -> (r: bool)
        ensures
            r == (self.bits & other.bits != 0),
    {
        self.bits & other.bits != 0
    }

    /// The flags set in `self` or in `other`.
    pub fn union(self, other: Self) -> (r: Self)
        ensures
            r.bits == self.bits | other.bits,
    {
        CatchMouseButton { bits: self.bits | other.bits }
    }

    /// The flags set in both `self` and `other`.
    pub fn intersection(self, other: Self) -> (r: Self)
        ensures
            r.bits == self.bits & other.bits,
    {
        CatchMouseButton { bits: self.bits & other.bits }
    }

    /// The flags set in `self` but not in `other`.
    pub fn difference(self, other: Self) -> (r: Self)
        ensures
            r.bits == self.bits & !other.bits,
    {
        CatchMouseButton { bits: self.bits & !other.bits }
    }

    /// Sets the flags of `other`.
    pub fn insert(&mut self, other: Self)
        ensures
            final(self).bits == old(self).bits | other.bits,
    {
        self.bits = self.bits | other.bits;
    }

    /// Clears the flags of `other`.
    pub fn remove(&mut self, other: Self)
        ensures
            final(self).bits == old(self).bits & !other.bits,
    {
        self.bits = self.bits & !other.bits;
    }

    /// Sets (`value == true`) or clears (`value == false`) the flags of `other`.
    pub fn set(&mut self, other: Self, value: bool)
        ensures
            final(self).bits == (if value { old(self).bits | other.bits } else { old(self).bits & !other.bits }),
    {
        if value {
            self.insert(other);
        } else {
            self.remove(other);
        }
    }
}

/// The modifier keys held during an input event (as reported by the terminal).
#[derive(Clone, Copy, Debug, PartialEq, Eq, Structural, Hash)]
pub struct KeyModifiers {
    pub bits: u8,
}

impl View for KeyModifiers {
    type V = u8;

    open spec fn view(&self) -> u8 {
        self.bits
    }
}

impl Default for KeyModifiers {
    fn default() -> (r: Self)
        ensures
            r.bits == 0,
    {
        KeyModifiers { bits: 0 }
    }
}

impl KeyModifiers {
    /// Shift.
    pub fn shift() -> (r: Self)
        ensures
            r.bits == 0x1,
    {
        KeyModifiers { bits: 0x1 }
    }

    /// Control.
    pub fn control() -> (r: Self)
        ensures
            r.bits == 0x2,
    {
        KeyModifiers { bits: 0x2 }
    }

    /// Alt.
    pub fn alt() -> (r: Self)
        ensures
            r.bits == 0x4,
    {
        KeyModifiers { bits: 0x4 }
    }

    /// Super.
    pub fn super_key() -> (r: Self)
        ensures
            r.bits == 0x8,
    {
        KeyModifiers { bits: 0x8 }
    }

    /// Hyper.
    pub fn hyper() -> (r: Self)
        ensures
            r.bits == 0x10,
    {
        KeyModifiers { bits: 0x10 }
    }

    /// Meta.
    pub fn meta() -> (r: Self)
        ensures
            r.bits == 0x20,
    {
        KeyModifiers { bits: 0x20 }
    }

    /// The empty set of flags.
    pub fn empty() -> (r: Self)
        ensures
            r.bits == 0,
    {
        KeyModifiers { bits: 0 }
    }

    /// Every defined flag.
    pub fn all() -> (r: Self)
        ensures
            r.bits == 0x3f,
    {
        KeyModifiers { bits: 0x3f }
    }

    /// The raw bits.
    pub fn bits(&self) -> (r: u8)
        ensures
            r == self.bits,
    {
        self.bits
    }

    /// The flags of `bits`, dropping the bits that no flag defines.
    pub fn from_bits_truncate(bits: u8) -> (r: Self)
        ensures
            r.bits == bits & 0x3f,
    {
        KeyModifiers { bits: bits & 0x3f }
    }

    /// The flags of `bits`, keeping every bit.
    pub fn from_bits_retain(bits: u8) -> (r: Self)
        ensures
            r.bits == bits,
    {
        KeyModifiers { bits }
    }

    /// Whether no flag is set.
    pub fn is_empty(&self) -> (r: bool)
        ensures
            r == (self.bits == 0),
    {
        self.bits == 0
    }

    /// Whether every flag of `other` is set in `self`.
    pub fn contains(&self, other: Self) -> (r: bool)
        ensures
            r == (self.bits & other.bits == other.bits),
    {
        self.bits & other.bits == other.bits
    }

    /// Whether `self` and `other` share a flag.
    pub fn intersects(&self, other: Self) -> (r: bool)
        ensures
            r == (self.bits & other.bits != 0),
    {
        self.bits & other.bits != 0
    }

    /// The flags set in `self` or in `other`.
    pub fn union(self, other: Self) -> (r: Self)
        ensures
            r.bits == self.bits | other.bits,
    {
        KeyModifiers { bits: self.bits | other.bits }
    }

    /// The flags set in both `self` and `other`.
    pub fn intersection(self, other: Self) -> (r: Self)
        ensures
            r.bits == self.bits & other.bits,
    {
        KeyModifiers { bits: self.bits & other.bits }
    }

    /// The flags set in `self` but not in `other`.
    pub fn difference(self, other: Self) -> (r: Self)
        ensures
            r.bits == self.bits & !other.bits,
    {
        KeyModifiers { bits: self.bits & !other.bits }
    }

    /// Sets the flags of `other`.
    pub fn insert(&mut self, other: Self)
        ensures
            final(self).bits == old(self).bits | other.bits,
    {
        self.bits = self.bits | other.bits;
    }

    /// Clears the flags of `other`.
    pub fn remove(&mut self, other: Self)
        ensures
            final(self).bits == old(self).bits & !other.bits,
    {
        self.bits = self.bits & !other.bits;
    }

    /// Sets (`value == true`) or clears (`value == false`) the flags of `other`.
    pub fn set(&mut self, other: Self, value: bool)
        ensures
            final(self).bits == (if value { old(self).bits | other.bits } else { old(self).bits & !other.bits }),
    {
        if value {
            self.insert(other);
        } else {
            self.remove(other);
        }
    }
}

/// Text modifiers of a [`Style`](crate::style::Style) (bold, italic, ...).
#[derive(Clone, Copy, Debug, PartialEq, Eq, Structural, Hash)]
pub struct Modifier {
    pub bits: u16,
}

impl View for Modifier {
    type V = u16;

    open spec fn view(&self) -> u16 {
        self.bits
    }
}

impl Default for Modifier {
    fn default() -> (r: Self)
        ensures
            r.bits == 0,
    {
        Modifier { bits: 0 }
    }
}

impl Modifier {
    /// Bold.
    pub fn bold() -> (r: Self)
        ensures
            r.bits == 0x1,
    {
        Modifier { bits: 0x1 }
    }

    /// Dim.
    pub fn dim() -> (r: Self)
        ensures
            r.bits == 0x2,
    {
        Modifier { bits: 0x2 }
    }

    /// Italic.
    pub fn italic() -> (r: Self)
        ensures
            r.bits == 0x4,
    {
        Modifier { bits: 0x4 }
    }

    /// Underlined.
    pub fn underlined() -> (r: Self)
        ensures
            r.bits == 0x8,
    {
        Modifier { bits: 0x8 }
    }

    /// Slow blink.
    pub fn slow_blink() -> (r: Self)
        ensures
            r.bits == 0x10,
    {
        Modifier { bits: 0x10 }
    }

    /// Rapid blink.
    pub fn rapid_blink() -> (r: Self)
        ensures
            r.bits == 0x20,
    {
        Modifier { bits: 0x20 }
    }

    /// Reversed.
    pub fn reversed() -> (r: Self)
        ensures
            r.bits == 0x40,
    {
        Modifier { bits: 0x40 }
    }

    /// Hidden.
    pub fn hidden() -> (r: Self)
        ensures
            r.bits == 0x80,
    {
        Modifier { bits: 0x80 }
    }

    /// Crossed out.
    pub fn crossed_out() -> (r: Self)
        ensures
            r.bits == 0x100,
    {
        Modifier { bits: 0x100 }
    }

    /// The empty set of flags.
    pub fn empty() -> (r: Self)
        ensures
            r.bits == 0,
    {
        Modifier { bits: 0 }
    }

    /// Every defined flag.
    pub fn all() -> (r: Self)
        ensures
            r.bits == 0x1ff,
    {
        Modifier { bits: 0x1ff }
    }

    /// The raw bits.
    pub fn bits(&self) -> (r: u16)
        ensures
            r == self.bits,
    {
        self.bits
    }

    /// The flags of `bits`, dropping the bits that no flag defines.
    pub fn from_bits_truncate(bits: u16) -> (r: Self)
        ensures
            r.bits == bits & 0x1ff,
    {
        Modifier { bits: bits & 0x1ff }
    }

    /// The flags of `bits`, keeping every bit.
    pub fn from_bits_retain(bits: u16) -> (r: Self)
        ensures
            r.bits == bits,
    {
        Modifier { bits }
    }

    /// Whether no flag is set.
    pub fn is_empty(&self) -> (r: bool)
        ensures
            r == (self.bits == 0),
    {
        self.bits == 0
    }

    /// Whether every flag of `other` is set in `self`.
    pub fn contains(&self, other: Self) -> (r: bool)
        ensures
            r == (self.bits & other.bits == other.bits),
    {
        self.bits & other.bits == other.bits
    }

    /// Whether `self` and `other` share a flag.
    pub fn intersects(&self, other: Self) -> (r: bool)
        ensures
            r == (self.bits & other.bits != 0),
    {
        self.bits & other.bits != 0
    }

    /// The flags set in `self` or in `other`.
    pub fn union(self, other: Self) -> (r: Self)
        ensures
            r.bits == self.bits | other.bits,
    {
        Modifier { bits: self.bits | other.bits }
    }

    /// The flags set in both `self` and `other`.
    pub fn intersection(self, other: Self) -> (r: Self)
        ensures
            r.bits == self.bits & other.bits,
    {
        Modifier { bits: self.bits & other.bits }
    }

    /// The flags set in `self` but not in `other`.
    pub fn difference(self, other: Self) -> (r: Self)
        ensures
            r.bits == self.bits & !other.bits,
    {
        Modifier { bits: self.bits & !other.bits }
    }

    /// Sets the flags of `other`.
    pub fn insert(&mut self, other: Self)
        ensures
            final(self).bits == old(self).bits | other.bits,
    {
        self.bits = self.bits | other.bits;
    }

    /// Clears the flags of `other`.
    pub fn remove(&mut self, other: Self)
        ensures
            final(self).bits == old(self).bits & !other.bits,
    {
        self.bits = self.bits & !other.bits;
    }

    /// Sets (`value == true`) or clears (`value == false`) the flags of `other`.
    pub fn set(&mut self, other: Self, value: bool)
        ensures
            final(self).bits == (if value { old(self).bits | other.bits } else { old(self).bits & !other.bits }),
    {
        if value {
            self.insert(other);
        } else {
            self.remove(other);
        }
    }
}

/// Values of the combined flags.
pub proof fn lemma_flag_consts()
    by (bit_vector)
    ensures
        2u8 | 8u8 == 0xau8,
        (0u8 | 2u8) | 8u8 == 0xau8,
        (0u8 & !2u8) | 8u8 == 8u8,
{
}

impl PodFlags {
    /// The flags that are propagated to the parent of a pod.
    pub fn upwards(self) -> (r: Self)
        ensures
            r.bits == self.bits & 0x291b,
    {
        PodFlags { bits: self.bits & 0x291b }
    }
}

impl ChangeFlags {
    /// The flags of a structural change of the widget tree.
    pub fn tree_structure() -> (r: Self)
        ensures
            r.bits == 0x10,
    {
        ChangeFlags::tree()
    }

    /// The change flags that the owner of a pod has to take over, when the pod is marked
    /// with `self`.
    pub fn upwards(self) -> (r: Self)
        ensures
            r.bits == self.bits & 0x1b,
    {
        let pod_flags = PodFlags::from_bits_truncate(self.bits as u32);
        let up = pod_flags.upwards();
        let r = ChangeFlags::from_bits_truncate(up.bits as u8);
        proof {
            let b = self.bits;
            assert(((((b as u32) & 0x3f1b) & 0x291b) as u8) & 0x1b == b & 0x1b) by (bit_vector);
        }
        r
    }
}

} // verus!
