//! Geometry on the terminal's cell grid: points, sizes, rectangles and the box
//! constraints of the layout protocol.
//!
//! Coordinates are whole terminal cells. A size dimension of [`UNBOUNDED`] stands
//! for an unbounded (infinite) extent: arithmetic saturates there, so that an
//! unbounded extent stays unbounded.
use vstd::prelude::*;

verus! {

/// The largest extent; used as "unbounded".
pub const UNBOUNDED: u16 = 65535;

/// The value of `v` clamped into the range of `i32`.
pub open spec fn clamp_i32(v: int) -> i32 {
    if v < i32::MIN {
        i32::MIN
    } else if v > i32::MAX {
        i32::MAX
    } else {
        v as i32
    }
}

/// The value of `v` clamped into the range of `i16`.
pub open spec fn clamp_i16(v: int) -> i16 {
    if v < i16::MIN {
        i16::MIN
    } else if v > i16::MAX {
        i16::MAX
    } else {
        v as i16
    }
}

/// `a + b`, saturating at the bounds of `i32`.
pub fn sat_add_i32(a: i32, b: i32) -> (r: i32)
    ensures
        r == clamp_i32(a + b),
{
    let s: i64 = a as i64 + b as i64;
    if s < i32::MIN as i64 {
        i32::MIN
    } else if s > i32::MAX as i64 {
        i32::MAX
    } else {
        s as i32
    }
}

/// `a - b`, saturating at the bounds of `i32`.
pub fn sat_sub_i32(a: i32, b: i32) -> (r: i32)
    ensures
        r == clamp_i32(a - b),
{
    let s: i64 = a as i64 - b as i64;
    if s < i32::MIN as i64 {
        i32::MIN
    } else if s > i32::MAX as i64 {
        i32::MAX
    } else {
        s as i32
    }
}

/// `v` clamped into the range of `i16`.
pub fn sat_i16(v: i64) -> (r: i16)
    ensures
        r == clamp_i16(v as int),
{
    if v < i16::MIN as i64 {
        i16::MIN
    } else if v > i16::MAX as i64 {
        i16::MAX
    } else {
        v as i16
    }
}

/// A position on the cell grid.
#[derive(Clone, Copy, Debug, PartialEq, Eq, Structural, Hash)]
pub struct Point {
    pub x: i32,
    pub y: i32,
}

impl Point {
    /// The point `(x, y)`.
    pub fn new(x: i32, y: i32) -> (r: Point)
        ensures
            r.x == x,
            r.y == y,
    {
        Point { x, y }
    }

    /// The origin `(0, 0)`.
    pub fn origin() -> (r: Point)
        ensures
            r.x == 0,
            r.y == 0,
    {
        Point { x: 0, y: 0 }
    }

    /// The point moved by `offset` (saturating at the bounds of `i32`).
    pub fn translate(self, offset: Point) -> (r: Point)
        ensures
            r == self.spec_translate(offset),
    {
        Point { x: sat_add_i32(self.x, offset.x), y: sat_add_i32(self.y, offset.y) }
    }

    /// The point moved back by `offset` (saturating at the bounds of `i32`).
    pub fn translate_back(self, offset: Point) -> (r: Point)
        ensures
            r == self.spec_translate_back(offset),
    {
        Point { x: sat_sub_i32(self.x, offset.x), y: sat_sub_i32(self.y, offset.y) }
    }

    /// The point `(x, y)`.
    pub open spec fn new_spec(x: i32, y: i32) -> Point {
        Point { x, y }
    }

    /// The point moved by `offset`.
    pub open spec fn spec_translate(self, offset: Point) -> Point {
        Point { x: clamp_i32(self.x + offset.x), y: clamp_i32(self.y + offset.y) }
    }

    /// The point moved back by `offset`.
    pub open spec fn spec_translate_back(self, offset: Point) -> Point {
        Point { x: clamp_i32(self.x - offset.x), y: clamp_i32(self.y - offset.y) }
    }
}

/// An extent on the cell grid. A dimension of [`UNBOUNDED`] is unbounded.
#[derive(Clone, Copy, Debug, PartialEq, Eq, Structural, Hash)]
pub struct Size {
    pub width: u16,
    pub height: u16,
}

/// `a + b`, where an unbounded operand or a sum past the largest extent gives [`UNBOUNDED`].
pub open spec fn extent_add(a: u16, b: u16) -> u16 {
    if a + b > UNBOUNDED {
        UNBOUNDED
    } else {
        (a + b) as u16
    }
}

/// `a - b` floored at zero, where an unbounded `a` stays unbounded.
pub open spec fn extent_sub(a: u16, b: u16) -> u16 {
    if a == UNBOUNDED {
        UNBOUNDED
    } else if a < b {
        0
    } else {
        (a - b) as u16
    }
}

/// `a - b` floored at zero.
pub open spec fn floor_sub(a: u16, b: u16) -> u16 {
    if a < b {
        0
    } else {
        (a - b) as u16
    }
}

/// `v` clamped to `[lo, hi]`, applying the lower bound first (so `hi` wins when `lo > hi`).
pub open spec fn clamp_extent(v: u16, lo: u16, hi: u16) -> u16 {
    let a = if v < lo {
        lo
    } else {
        v
    };
    if a > hi {
        hi
    } else {
        a
    }
}

impl Size {
    /// The size `width` x `height`.
    pub fn new(width: u16, height: u16) -> (r: Size)
        ensures
            r.width == width,
            r.height == height,
    {
        Size { width, height }
    }

    /// The empty size.
    pub fn zero() -> (r: Size)
        ensures
            r.width == 0,
            r.height == 0,
    {
        Size { width: 0, height: 0 }
    }

    /// The sum of two sizes, dimension by dimension.
    pub open spec fn spec_add(self, other: Size) -> Size {
        Size {
            width: extent_add(self.width, other.width),
            height: extent_add(self.height, other.height),
        }
    }

    /// The sum of two sizes (saturating at [`UNBOUNDED`]).
    pub fn add(self, other: Size) -> (r: Size)
        ensures
            r == self.spec_add(other),
    {
        Size {
            width: self.width.saturating_add(other.width),
            height: self.height.saturating_add(other.height),
        }
    }
}

/// An axis aligned rectangle: its top left corner and its size.
#[derive(Clone, Copy, Debug, PartialEq, Eq, Structural, Hash)]
pub struct Rect {
    pub x: i32,
    pub y: i32,
    pub width: u16,
    pub height: u16,
}

impl Rect {
    /// The rectangle with top left corner `(x, y)` and the given size.
    pub fn new(x: i32, y: i32, width: u16, height: u16) -> (r: Rect)
        ensures
            r.x == x,
            r.y == y,
            r.width == width,
            r.height == height,
    {
        Rect { x, y, width, height }
    }

    /// The rectangle with the given top left corner and size.
    pub fn from_origin_size(origin: Point, size: Size) -> (r: Rect)
        ensures
            r.x == origin.x,
            r.y == origin.y,
            r.width == size.width,
            r.height == size.height,
    {
        Rect { x: origin.x, y: origin.y, width: size.width, height: size.height }
    }

    /// Whether `p` is one of the cells of the rectangle.
    pub open spec fn spec_contains(self, p: Point) -> bool {
        &&& self.x <= p.x < self.x + self.width
        &&& self.y <= p.y < self.y + self.height
    }

    /// Whether `p` lies in the rectangle (the right and bottom edges excluded).
    pub fn contains(&self, p: Point) -> (r: bool)
        ensures
            r == self.spec_contains(p),
    {
        let px = p.x as i64;
        let py = p.y as i64;
        let x0 = self.x as i64;
        let y0 = self.y as i64;
        x0 <= px && px < x0 + self.width as i64 && y0 <= py && py < y0 + self.height as i64
    }
}

/// The constraints of a layout pass: the size of a widget has to lie between `min`
/// and `max`.
#[derive(Clone, Copy, Debug, PartialEq, Eq, Structural, Hash)]
pub struct BoxConstraints {
    pub min: Size,
    pub max: Size,
}

impl BoxConstraints {
    /// The constraints between `min` and `max`.
    pub fn new(min: Size, max: Size) -> (r: BoxConstraints)
        ensures
            r.min == min,
            r.max == max,
    {
        BoxConstraints { min, max }
    }

    /// The constraints that only admit `size`.
    pub fn tight(size: Size) -> (r: BoxConstraints)
        ensures
            r.min == size,
            r.max == size,
    {
        BoxConstraints { min: size, max: size }
    }

    /// The same maximum, with no minimum.
    pub fn loosen(&self) -> (r: BoxConstraints)
        ensures
            r.min == Size::zero_spec(),
            r.max == self.max,
    {
        BoxConstraints { min: Size::zero(), max: self.max }
    }

    /// The smallest admitted size.
    pub fn min(&self) -> (r: Size)
        ensures
            r == self.min,
    {
        self.min
    }

    /// The largest admitted size.
    pub fn max(&self) -> (r: Size)
        ensures
            r == self.max,
    {
        self.max
    }

    /// Whether the maximum width is bounded.
    pub fn is_width_bounded(&self) -> (r: bool)
        ensures
            r == (self.max.width != UNBOUNDED),
    {
        self.max.width != UNBOUNDED
    }

    /// Whether the maximum height is bounded.
    pub fn is_height_bounded(&self) -> (r: bool)
        ensures
            r == (self.max.height != UNBOUNDED),
    {
        self.max.height != UNBOUNDED
    }

    /// `size` clamped into the constraints.
    pub open spec fn spec_constrain(self, size: Size) -> Size {
        Size {
            width: clamp_extent(size.width, self.min.width, self.max.width),
            height: clamp_extent(size.height, self.min.height, self.max.height),
        }
    }

    /// `size` clamped to the constraints (per dimension: first raised to the minimum,
    /// then lowered to the maximum).
    pub fn constrain(&self, size: Size) -> (r: Size)
        ensures
            r == self.spec_constrain(size),
    {
        Size {
            width: size.width.max(self.min.width).min(self.max.width),
            height: size.height.max(self.min.height).min(self.max.height),
        }
    }

    /// The constraints with `diff` taken off both bounds.
    pub open spec fn spec_shrink(self, diff: Size) -> BoxConstraints {
        BoxConstraints {
            min: Size {
                width: floor_sub(self.min.width, diff.width),
                height: floor_sub(self.min.height, diff.height),
            },
            max: Size {
                width: extent_sub(self.max.width, diff.width),
                height: extent_sub(self.max.height, diff.height),
            },
        }
    }

    /// The constraints with `diff` taken from both the minimum and the maximum (floored
    /// at zero; an unbounded maximum stays unbounded).
    pub fn shrink(&self, diff: Size) -> (r: BoxConstraints)
        ensures
            r == self.spec_shrink(diff),
    {
        let max_width = if self.max.width == UNBOUNDED {
            UNBOUNDED
        } else {
            self.max.width.saturating_sub(diff.width)
        };
        let max_height = if self.max.height == UNBOUNDED {
            UNBOUNDED
        } else {
            self.max.height.saturating_sub(diff.height)
        };
        BoxConstraints {
            min: Size {
                width: self.min.width.saturating_sub(diff.width),
                height: self.min.height.saturating_sub(diff.height),
            },
            max: Size { width: max_width, height: max_height },
        }
    }
}

impl Size {
    pub open spec fn zero_spec() -> Size {
        Size { width: 0, height: 0 }
    }
}

/// The direction in which a layout lines up its children.
#[derive(Clone, Copy, Debug, PartialEq, Eq, Structural, Hash)]
pub enum Axis {
    Horizontal,
    Vertical,
}

impl Axis {
    /// The extent of `s` along the axis.
    pub open spec fn spec_major(self, s: Size) -> u16 {
        match self {
            Axis::Horizontal => s.width,
            Axis::Vertical => s.height,
        }
    }

    /// The extent of `s` across the axis.
    pub open spec fn spec_minor(self, s: Size) -> u16 {
        match self {
            Axis::Horizontal => s.height,
            Axis::Vertical => s.width,
        }
    }

    /// The size with the given extents along and across the axis.
    pub open spec fn spec_pack_size(self, major: u16, minor: u16) -> Size {
        match self {
            Axis::Horizontal => Size { width: major, height: minor },
            Axis::Vertical => Size { width: minor, height: major },
        }
    }

    /// The point with the given coordinates along and across the axis.
    pub open spec fn spec_pack_point(self, major: i32, minor: i32) -> Point {
        match self {
            Axis::Horizontal => Point { x: major, y: minor },
            Axis::Vertical => Point { x: minor, y: major },
        }
    }

    /// The extent of `s` along the axis.
    pub fn major(self, s: Size) -> (r: u16)
        ensures
            r == self.spec_major(s),
    {
        match self {
            Axis::Horizontal => s.width,
            Axis::Vertical => s.height,
        }
    }

    /// The extent of `s` across the axis.
    pub fn minor(self, s: Size) -> (r: u16)
        ensures
            r == self.spec_minor(s),
    {
        match self {
            Axis::Horizontal => s.height,
            Axis::Vertical => s.width,
        }
    }

    /// The size with the given extents along and across the axis.
    pub fn pack_size(self, major: u16, minor: u16) -> (r: Size)
        ensures
            r == self.spec_pack_size(major, minor),
    {
        match self {
            Axis::Horizontal => Size { width: major, height: minor },
            Axis::Vertical => Size { width: minor, height: major },
        }
    }

    /// The point with the given coordinates along and across the axis.
    pub fn pack_point(self, major: i32, minor: i32) -> (r: Point)
        ensures
            r == self.spec_pack_point(major, minor),
    {
        match self {
            Axis::Horizontal => Point { x: major, y: minor },
            Axis::Vertical => Point { x: minor, y: major },
        }
    }

    /// `bc` with the range `min..=max` along the axis.
    pub open spec fn spec_with_major(self, bc: BoxConstraints, min: u16, max: u16) -> BoxConstraints {
        match self {
            Axis::Horizontal => BoxConstraints {
                min: Size { width: min, height: bc.min.height },
                max: Size { width: max, height: bc.max.height },
            },
            Axis::Vertical => BoxConstraints {
                min: Size { width: bc.min.width, height: min },
                max: Size { width: bc.max.width, height: max },
            },
        }
    }

    /// `bc` with the range `min..=max` along the axis.
    pub fn with_major(self, bc: BoxConstraints, min: u16, max: u16) -> (r: BoxConstraints)
        ensures
            r == self.spec_with_major(bc, min, max),
    {
        match self {
            Axis::Horizontal => BoxConstraints {
                min: Size { width: min, height: bc.min.height },
                max: Size { width: max, height: bc.max.height },
            },
            Axis::Vertical => BoxConstraints {
                min: Size { width: bc.min.width, height: min },
                max: Size { width: bc.max.width, height: max },
            },
        }
    }
}

/// A box constraint admits a size when the size lies between its minimum and maximum.
pub open spec fn admits(bc: BoxConstraints, size: Size) -> bool {
    &&& bc.min.width <= size.width <= bc.max.width
    &&& bc.min.height <= size.height <= bc.max.height
}

/// A box constraint is valid when its minimum does not exceed its maximum.
pub open spec fn valid_constraints(bc: BoxConstraints) -> bool {
    bc.min.width <= bc.max.width && bc.min.height <= bc.max.height
}

/// Law: constraining a size to valid constraints gives a size that they admit, and a
/// size that they already admit is left unchanged.
pub proof fn lemma_constrain_admits(bc: BoxConstraints, size: Size)
    requires
        valid_constraints(bc),
    ensures
        admits(bc, bc.spec_constrain(size)),
        admits(bc, size) ==> bc.spec_constrain(size) == size,
{
}

/// Law: shrinking valid constraints keeps them valid.
pub proof fn lemma_shrink_valid(bc: BoxConstraints, diff: Size)
    requires
        valid_constraints(bc),
    ensures
        valid_constraints(bc.spec_shrink(diff)),
{
}

} // verus!
