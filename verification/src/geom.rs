//! Rectangles, offsets and frame insets over 16-bit screen coordinates.
//!
//! The executable types hold `i16` coordinates, as the windowing server does.
//! Contracts speak of their views, [`Region`] and [`Insets`], which live over
//! the unbounded integers, so that a statement such as "growing and then
//! shrinking a box gives the box back" needs no side condition on range.

use vstd::prelude::*;

verus! {

/// Unit tag of coordinates measured from the origin of the root window.
#[derive(Clone, Copy, Debug)]
pub struct RootSpace;

/// A position on screen.
#[derive(Clone, Copy, Debug, PartialEq, Eq, Structural)]
pub struct Point2D {
    pub x: i16,
    pub y: i16,
}

/// A displacement between two positions.
#[derive(Clone, Copy, Debug, PartialEq, Eq, Structural)]
pub struct Vector2D {
    pub x: i16,
    pub y: i16,
}

/// A width and a height.
#[derive(Clone, Copy, Debug, PartialEq, Eq, Structural)]
pub struct Size2D {
    pub width: i16,
    pub height: i16,
}

/// A rectangle given by its top-left corner and its size, the form in which
/// a window reports its geometry relative to its parent.
#[derive(Clone, Copy, Debug, PartialEq, Eq, Structural)]
pub struct Rect {
    pub origin: Point2D,
    pub size: Size2D,
}

/// An axis-aligned rectangle given by its two corners.
///
/// A box is well formed when `min` is not beyond `max` on either axis. A box
/// of zero width or height is well formed.
#[derive(Clone, Copy, Debug, PartialEq, Eq, Structural)]
pub struct Box2D {
    pub min: Point2D,
    pub max: Point2D,
}

/// The widths of a decorative frame on the four sides of a content box.
///
/// Frame insets are well formed when none of them is negative.
#[derive(Clone, Copy, Debug, PartialEq, Eq, Structural)]
pub struct SideOffsets2D {
    pub top: i16,
    pub right: i16,
    pub bottom: i16,
    pub left: i16,
}

/// Whether `v` is a coordinate that an `i16` can hold.
pub open spec fn is_coord(v: int) -> bool {
    i16::MIN <= v <= i16::MAX
}

/// A rectangle over the unbounded integers: what a [`Box2D`] stands for.
pub struct Region {
    pub x0: int,
    pub y0: int,
    pub x1: int,
    pub y1: int,
}

/// Four side widths over the unbounded integers: what a [`SideOffsets2D`]
/// stands for.
pub struct Insets {
    pub top: int,
    pub right: int,
    pub bottom: int,
    pub left: int,
}

impl Insets {
    /// No side is negative.
    pub open spec fn wf(self) -> bool {
        self.top >= 0 && self.right >= 0 && self.bottom >= 0 && self.left >= 0
    }
}

impl Region {
    /// The lower corner is not beyond the upper corner.
    pub open spec fn wf(self) -> bool {
        self.x0 <= self.x1 && self.y0 <= self.y1
    }

    pub open spec fn width(self) -> int {
        self.x1 - self.x0
    }

    pub open spec fn height(self) -> int {
        self.y1 - self.y0
    }

    /// Every coordinate fits the 16-bit coordinate space.
    pub open spec fn representable(self) -> bool {
        is_coord(self.x0) && is_coord(self.y0) && is_coord(self.x1) && is_coord(self.y1)
    }

    /// The region covers no pixel: its width or its height is not positive.
    pub open spec fn is_empty(self) -> bool {
        !(self.x1 > self.x0 && self.y1 > self.y0)
    }

    /// No side of the region lies outside `other`.
    pub open spec fn within(self, other: Region) -> bool {
        other.x0 <= self.x0 && self.x1 <= other.x1 && other.y0 <= self.y0 && self.y1 <= other.y1
    }

    /// The two regions share more than an edge.
    pub open spec fn intersects(self, other: Region) -> bool {
        self.x0 < other.x1 && self.x1 > other.x0 && self.y0 < other.y1 && self.y1 > other.y0
    }

    /// The largest lower corner and the smallest upper corner of the two.
    /// Where the regions are apart the result is not well formed.
    pub open spec fn overlap(self, other: Region) -> Region {
        Region {
            x0: if self.x0 > other.x0 { self.x0 } else { other.x0 },
            y0: if self.y0 > other.y0 { self.y0 } else { other.y0 },
            x1: if self.x1 < other.x1 { self.x1 } else { other.x1 },
            y1: if self.y1 < other.y1 { self.y1 } else { other.y1 },
        }
    }

    /// The part common to both regions, where it covers at least one pixel.
    pub open spec fn intersection(self, other: Region) -> Option<Region> {
        if self.overlap(other).is_empty() {
            None
        } else {
            Some(self.overlap(other))
        }
    }

    /// The region with each side moved outward by the matching inset.
    pub open spec fn outer_box(self, e: Insets) -> Region {
        Region {
            x0: self.x0 - e.left,
            y0: self.y0 - e.top,
            x1: self.x1 + e.right,
            y1: self.y1 + e.bottom,
        }
    }

    /// The region with each side moved inward by the matching inset.
    pub open spec fn inner_box(self, e: Insets) -> Region {
        Region {
            x0: self.x0 + e.left,
            y0: self.y0 + e.top,
            x1: self.x1 - e.right,
            y1: self.y1 - e.bottom,
        }
    }
}

impl View for Box2D {
    type V = Region;

    open spec fn view(&self) -> Region {
        Region {
            x0: self.min.x as int,
            y0: self.min.y as int,
            x1: self.max.x as int,
            y1: self.max.y as int,
        }
    }
}

impl View for SideOffsets2D {
    type V = Insets;

    open spec fn view(&self) -> Insets {
        Insets {
            top: self.top as int,
            right: self.right as int,
            bottom: self.bottom as int,
            left: self.left as int,
        }
    }
}

/// Calls `euclid::Box2D::intersects`, which compares the corners of the two
/// boxes and answers whether they overlap in more than an edge. Trusted.
#[verifier::external_body]
pub(crate) fn euclid_intersects(a: &Box2D, b: &Box2D) -> (r: bool)
    ensures
        r == a@.intersects(b@),
{
    let ea: euclid::Box2D<i16, RootSpace> =
        euclid::Box2D::new(euclid::point2(a.min.x, a.min.y), euclid::point2(a.max.x, a.max.y));
    let eb: euclid::Box2D<i16, RootSpace> =
        euclid::Box2D::new(euclid::point2(b.min.x, b.min.y), euclid::point2(b.max.x, b.max.y));
    ea.intersects(&eb)
}

/// Calls `euclid::Box2D::intersection`, which takes the larger of the lower
/// corners and the smaller of the upper corners and gives that box back
/// unless it is empty. Trusted.
#[verifier::external_body]
pub(crate) fn euclid_intersection(a: &Box2D, b: &Box2D) -> (r: Option<Box2D>)
    ensures
        match r {
            Some(c) => a@.intersection(b@) == Some(c@),
            None => a@.intersection(b@) is None,
        },
{
    let ea: euclid::Box2D<i16, RootSpace> =
        euclid::Box2D::new(euclid::point2(a.min.x, a.min.y), euclid::point2(a.max.x, a.max.y));
    let eb: euclid::Box2D<i16, RootSpace> =
        euclid::Box2D::new(euclid::point2(b.min.x, b.min.y), euclid::point2(b.max.x, b.max.y));
    match ea.intersection(&eb) {
        Some(c) => Some(
            Box2D { min: Point2D { x: c.min.x, y: c.min.y }, max: Point2D { x: c.max.x, y: c.max.y } },
        ),
        None => None,
    }
}

/// Calls `euclid::Box2D::outer_box`, which subtracts the left and top
/// offsets from the lower corner and adds the right and bottom offsets to
/// the upper corner, in `i16`. The precondition keeps each of the four
/// results in range. Trusted.
#[verifier::external_body]
pub(crate) fn euclid_outer_box(b: &Box2D, e: &SideOffsets2D) -> (r: Box2D)
    requires
        b@.outer_box(e@).representable(),
    ensures
        r@ == b@.outer_box(e@),
{
    let eb: euclid::Box2D<i16, RootSpace> =
        euclid::Box2D::new(euclid::point2(b.min.x, b.min.y), euclid::point2(b.max.x, b.max.y));
    let c = eb.outer_box(euclid::SideOffsets2D::new(e.top, e.right, e.bottom, e.left));
    Box2D { min: Point2D { x: c.min.x, y: c.min.y }, max: Point2D { x: c.max.x, y: c.max.y } }
}

/// Calls `euclid::Box2D::inner_box`, which adds the left and top offsets to
/// the lower corner and subtracts the right and bottom offsets from the
/// upper corner, in `i16`. The precondition keeps each of the four results
/// in range. Trusted.
#[verifier::external_body]
pub(crate) fn euclid_inner_box(b: &Box2D, e: &SideOffsets2D) -> (r: Box2D)
    requires
        b@.inner_box(e@).representable(),
    ensures
        r@ == b@.inner_box(e@),
{
    let eb: euclid::Box2D<i16, RootSpace> =
        euclid::Box2D::new(euclid::point2(b.min.x, b.min.y), euclid::point2(b.max.x, b.max.y));
    let c = eb.inner_box(euclid::SideOffsets2D::new(e.top, e.right, e.bottom, e.left));
    Box2D { min: Point2D { x: c.min.x, y: c.min.y }, max: Point2D { x: c.max.x, y: c.max.y } }
}

impl Box2D {
    pub open spec fn wf(&self) -> bool {
        self@.wf()
    }

    pub fn new(min: Point2D, max: Point2D) -> (b: Box2D)
        ensures
            b.min == min,
            b.max == max,
    {
        Box2D { min, max }
    }

    /// Whether the box is well formed.
    pub fn is_valid(&self) -> (ok: bool)
        ensures
            ok == self.wf(),
    {
        self.min.x <= self.max.x && self.min.y <= self.max.y
    }

    /// Horizontal extent of a well-formed box.
    pub fn width(&self) -> (w: u16)
        requires
            self.wf(),
        ensures
            w == self@.width(),
    {
        (self.max.x as i32 - self.min.x as i32) as u16
    }

    /// Vertical extent of a well-formed box.
    pub fn height(&self) -> (h: u16)
        requires
            self.wf(),
        ensures
            h == self@.height(),
    {
        (self.max.y as i32 - self.min.y as i32) as u16
    }

    /// Whether the two boxes share more than an edge.
    pub fn intersects(&self, other: &Box2D) -> (r: bool)
        ensures
            r == self@.intersects(other@),
    {
        euclid_intersects(self, other)
    }

    /// The part common to both boxes, or `None` where that part covers no
    /// pixel.
    pub fn intersection(&self, other: &Box2D) -> (r: Option<Box2D>)
        ensures
            match r {
                Some(c) => self@.intersection(other@) == Some(c@),
                None => self@.intersection(other@) is None,
            },
            r is Some ==> self@.intersects(other@),
            r matches Some(c) ==> c.wf(),
    {
        euclid_intersection(self, other)
    }
}

impl SideOffsets2D {
    pub open spec fn wf(&self) -> bool {
        self@.wf()
    }

    /// Insets in the order top, right, bottom, left.
    pub fn new(top: i16, right: i16, bottom: i16, left: i16) -> (e: SideOffsets2D)
        ensures
            e.top == top,
            e.right == right,
            e.bottom == bottom,
            e.left == left,
    {
        SideOffsets2D { top, right, bottom, left }
    }

    /// No frame at all.
    pub fn zero() -> (e: SideOffsets2D)
        ensures
            e.top == 0,
            e.right == 0,
            e.bottom == 0,
            e.left == 0,
            e.wf(),
    {
        SideOffsets2D { top: 0, right: 0, bottom: 0, left: 0 }
    }

    /// Whether no inset is negative.
    pub fn is_valid(&self) -> (ok: bool)
        ensures
            ok == self.wf(),
    {
        self.top >= 0 && self.right >= 0 && self.bottom >= 0 && self.left >= 0
    }

    /// The insets that a frame property announces. The property lists the
    /// left, right, top and bottom width in this order. A property with
    /// fewer than four values, or with one of the four beyond the
    /// coordinate space, counts as no property: all insets are zero.
    pub open spec fn announced(values: Seq<u32>) -> Insets {
        if values.len() >= 4 && values[0] <= i16::MAX && values[1] <= i16::MAX && values[2]
            <= i16::MAX && values[3] <= i16::MAX {
            Insets {
                top: values[2] as int,
                right: values[1] as int,
                bottom: values[3] as int,
                left: values[0] as int,
            }
        } else {
            Insets { top: 0, right: 0, bottom: 0, left: 0 }
        }
    }

    /// Frame insets from the values of a window's frame property; an empty
    /// slice where the window has no such property.
    pub fn from_cardinals(values: &[u32]) -> (e: SideOffsets2D)
        ensures
            e@ == SideOffsets2D::announced(values@),
            e.wf(),
    {
        if values.len() >= 4 && values[0] <= 32767 && values[1] <= 32767 && values[2] <= 32767
            && values[3] <= 32767 {
            SideOffsets2D {
                top: values[2] as i16,
                right: values[1] as i16,
                bottom: values[3] as i16,
                left: values[0] as i16,
            }
        } else {
            SideOffsets2D::zero()
        }
    }
}

} // verus!
