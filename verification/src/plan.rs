//! From a symbolic placement request to a rectangle.
//!
//! A request names a horizontal and a vertical placement. Each axis is
//! planned on its own from the window's present box and the usable area.
//! All parts of the usable width or height are taken with floor division.

use vstd::prelude::*;
use crate::geom::{Box2D, Point2D, Region};

verus! {

/// Where the window goes horizontally.
#[derive(Clone, Copy, Debug, PartialEq, Eq, Structural)]
pub enum HorizSpec {
    /// Keep the present horizontal bounds.
    Current,
    /// Left side, stepping through half, quarter and three quarters on
    /// repeated requests.
    Left,
    /// A quarter of the width, from the left edge.
    Left25,
    /// Half of the width, from the left edge.
    Left50,
    /// Three quarters of the width, from the left edge.
    Left75,
    /// Right side, stepping like `Left`.
    Right,
    /// A quarter of the width, up to the right edge.
    Right25,
    /// Half of the width, up to the right edge.
    Right50,
    /// Three quarters of the width, up to the right edge.
    Right75,
    /// The whole usable width.
    Full,
    /// The left one of three bands of a third of the width each.
    Left33,
    /// The band that follows the left band.
    Mid33,
    /// The band of a third of the width that ends at the right edge.
    Right33,
}

/// Where the window goes vertically.
#[derive(Clone, Copy, Debug, PartialEq, Eq, Structural)]
pub enum VertSpec {
    /// Keep the present vertical bounds.
    Current,
    /// The upper half.
    Top,
    /// The lower half.
    Bottom,
    /// The whole usable height.
    Full,
}

/// A placement request: the horizontal and the vertical part.
pub type PlacementSpec = (HorizSpec, VertSpec);

/// The interval of length `part` that starts at `lo`.
pub open spec fn from_low(lo: int, part: int) -> (int, int) {
    (lo, lo + part)
}

/// The interval of length `part` that ends at `hi`.
pub open spec fn from_high(hi: int, part: int) -> (int, int) {
    (hi - part, hi)
}

/// The next step of the cycle half, quarter, three quarters: from the half
/// to the quarter, from the quarter to the three quarters, and from
/// anywhere else to the half.
pub open spec fn cycle(current: (int, int), c25: (int, int), c50: (int, int), c75: (int, int)) -> (
    int,
    int,
) {
    if current == c50 {
        c25
    } else if current == c25 {
        c75
    } else {
        c50
    }
}

/// The horizontal bounds that `horiz` asks for, as (left edge, right edge).
pub open spec fn horiz_span(current: Region, usable: Region, horiz: HorizSpec) -> (int, int) {
    let w = usable.width();
    match horiz {
        HorizSpec::Current => (current.x0, current.x1),
        HorizSpec::Full => (usable.x0, usable.x1),
        HorizSpec::Left25 => from_low(usable.x0, w / 4),
        HorizSpec::Left50 => from_low(usable.x0, w / 2),
        HorizSpec::Left75 => from_low(usable.x0, w * 3 / 4),
        HorizSpec::Right25 => from_high(usable.x1, w / 4),
        HorizSpec::Right50 => from_high(usable.x1, w / 2),
        HorizSpec::Right75 => from_high(usable.x1, w * 3 / 4),
        HorizSpec::Left33 => from_low(usable.x0, w / 3),
        HorizSpec::Mid33 => from_low(usable.x0 + w / 3, w / 3),
        HorizSpec::Right33 => from_high(usable.x1, w / 3),
        HorizSpec::Left => cycle(
            (current.x0, current.x1),
            from_low(usable.x0, w / 4),
            from_low(usable.x0, w / 2),
            from_low(usable.x0, w * 3 / 4),
        ),
        HorizSpec::Right => cycle(
            (current.x0, current.x1),
            from_high(usable.x1, w / 4),
            from_high(usable.x1, w / 2),
            from_high(usable.x1, w * 3 / 4),
        ),
    }
}

/// The vertical bounds that `vert` asks for, as (top edge, bottom edge).
pub open spec fn vert_span(current: Region, usable: Region, vert: VertSpec) -> (int, int) {
    match vert {
        VertSpec::Current => (current.y0, current.y1),
        VertSpec::Full => (usable.y0, usable.y1),
        VertSpec::Top => from_low(usable.y0, usable.height() / 2),
        VertSpec::Bottom => from_high(usable.y1, usable.height() / 2),
    }
}

/// The box that the request asks for.
pub open spec fn plan(current: Region, usable: Region, horiz: HorizSpec, vert: VertSpec) -> Region {
    let h = horiz_span(current, usable, horiz);
    let v = vert_span(current, usable, vert);
    Region { x0: h.0, y0: v.0, x1: h.1, y1: v.1 }
}

/// A dimension for a request in percent: one pixel at 0 percent or less, the
/// whole of `available` at 100 percent or more, and between the two the
/// floor of `available * percent / 100`.
pub open spec fn percent_of(available: int, percent: int) -> int {
    if percent <= 0 {
        1
    } else if percent >= 100 {
        available
    } else {
        available * percent / 100
    }
}

fn low_span(lo: i16, hi: i16, part: u16) -> (r: (i16, i16))
    requires
        lo + part <= hi,
    ensures
        (r.0 as int, r.1 as int) == from_low(lo as int, part as int),
{
    (lo, (lo as i32 + part as i32) as i16)
}

fn high_span(lo: i16, hi: i16, part: u16) -> (r: (i16, i16))
    requires
        lo <= hi - part,
    ensures
        (r.0 as int, r.1 as int) == from_high(hi as int, part as int),
{
    ((hi as i32 - part as i32) as i16, hi)
}

fn next_in_cycle(current: (i16, i16), c25: (i16, i16), c50: (i16, i16), c75: (i16, i16)) -> (r: (
    i16,
    i16,
))
    ensures
        (r.0 as int, r.1 as int) == cycle(
            (current.0 as int, current.1 as int),
            (c25.0 as int, c25.1 as int),
            (c50.0 as int, c50.1 as int),
            (c75.0 as int, c75.1 as int),
        ),
{
    if current.0 == c50.0 && current.1 == c50.1 {
        c25
    } else if current.0 == c25.0 && current.1 == c25.1 {
        c75
    } else {
        c50
    }
}

/// Horizontal bounds for `horiz`, as (left edge, right edge).
///
/// Every placement but `Current` lies within the usable width.
pub fn compute_target_horiz_bounds(current: &Box2D, usable: &Box2D, horiz: HorizSpec) -> (r: (
    i16,
    i16,
))
    requires
        usable.wf(),
    ensures
        (r.0 as int, r.1 as int) == horiz_span(current@, usable@, horiz),
        horiz !is Current ==> usable.min.x <= r.0 <= r.1 <= usable.max.x,
        horiz is Current ==> r.0 == current.min.x && r.1 == current.max.x,
{
    let lo = usable.min.x;
    let hi = usable.max.x;
    let w: u16 = usable.width();
    let w75: u16 = (w as u32 * 3 / 4) as u16;
    match horiz {
        HorizSpec::Current => (current.min.x, current.max.x),
        HorizSpec::Full => (lo, hi),
        HorizSpec::Left25 => low_span(lo, hi, w / 4),
        HorizSpec::Left50 => low_span(lo, hi, w / 2),
        HorizSpec::Left75 => low_span(lo, hi, w75),
        HorizSpec::Right25 => high_span(lo, hi, w / 4),
        HorizSpec::Right50 => high_span(lo, hi, w / 2),
        HorizSpec::Right75 => high_span(lo, hi, w75),
        HorizSpec::Left33 => low_span(lo, hi, w / 3),
        HorizSpec::Mid33 => {
            let start = low_span(lo, hi, w / 3).1;
            low_span(start, hi, w / 3)
        },
        HorizSpec::Right33 => high_span(lo, hi, w / 3),
        HorizSpec::Left => next_in_cycle(
            (current.min.x, current.max.x),
            low_span(lo, hi, w / 4),
            low_span(lo, hi, w / 2),
            low_span(lo, hi, w75),
        ),
        HorizSpec::Right => next_in_cycle(
            (current.min.x, current.max.x),
            high_span(lo, hi, w / 4),
            high_span(lo, hi, w / 2),
            high_span(lo, hi, w75),
        ),
    }
}

/// Vertical bounds for `vert`, as (top edge, bottom edge).
///
/// Every placement but `Current` lies within the usable height.
pub fn compute_target_vert_bounds(current: &Box2D, usable: &Box2D, vert: VertSpec) -> (r: (
    i16,
    i16,
))
    requires
        usable.wf(),
    ensures
        (r.0 as int, r.1 as int) == vert_span(current@, usable@, vert),
        vert !is Current ==> usable.min.y <= r.0 <= r.1 <= usable.max.y,
        vert is Current ==> r.0 == current.min.y && r.1 == current.max.y,
{
    let lo = usable.min.y;
    let hi = usable.max.y;
    let h: u16 = usable.height();
    match vert {
        VertSpec::Current => (current.min.y, current.max.y),
        VertSpec::Full => (lo, hi),
        VertSpec::Top => low_span(lo, hi, h / 2),
        VertSpec::Bottom => high_span(lo, hi, h / 2),
    }
}

/// The box that the request (`horiz`, `vert`) asks for, given the window's
/// present box and the usable area.
pub fn compute_target_bounds(current: &Box2D, usable: &Box2D, horiz: HorizSpec, vert: VertSpec) -> (r:
    Box2D)
    requires
        usable.wf(),
    ensures
        r@ == plan(current@, usable@, horiz, vert),
        current.wf() ==> r.wf(),
{
    let (x0, x1) = compute_target_horiz_bounds(current, usable, horiz);
    let (y0, y1) = compute_target_vert_bounds(current, usable, vert);
    Box2D { min: Point2D { x: x0, y: y0 }, max: Point2D { x: x1, y: y1 } }
}

/// The dimension that a request of `percent` percent of `available` asks
/// for: exactly one pixel at 0 percent, exactly `available` at 100 percent.
pub fn percent_dimension(available: u16, percent: i32) -> (r: u16)
    ensures
        r == percent_of(available as int, percent as int),
        percent == 0 ==> r == 1,
        percent == 100 ==> r == available,
        0 < percent < 100 ==> r <= available,
{
    if percent <= 0 {
        1
    } else if percent >= 100 {
        available
    } else {
        let a: u32 = available as u32;
        let p: u32 = percent as u32;
        assert(a * p <= a * 100 && a * 100 <= 6553500) by (nonlinear_arith)
            requires
                0 <= a <= 65535,
                0 < p < 100,
        ;
        (a * p / 100) as u16
    }
}

/// Every fixed placement and both cycling placements stay within the usable
/// width: only `Current` can reach outside it.
pub proof fn lemma_horiz_span_within(current: Region, usable: Region, horiz: HorizSpec)
    requires
        usable.wf(),
        horiz !is Current,
    ensures
        usable.x0 <= horiz_span(current, usable, horiz).0,
        horiz_span(current, usable, horiz).0 <= horiz_span(current, usable, horiz).1,
        horiz_span(current, usable, horiz).1 <= usable.x1,
{
}

/// Repeating `Left` on a window that sits at the left half walks through the
/// quarter, the three quarters and back to the half, whatever the vertical
/// requests are.
///
/// The usable width must not be 2: there the half and the three quarters are
/// both one pixel, so that the third step cannot tell them apart.
pub proof fn lemma_left_cycle(
    start: Region,
    usable: Region,
    v1: VertSpec,
    v2: VertSpec,
    v3: VertSpec,
)
    requires
        usable.wf(),
        usable.width() != 2,
        (start.x0, start.x1) == horiz_span(start, usable, HorizSpec::Left50),
    ensures
        ({
            let first = plan(start, usable, HorizSpec::Left, v1);
            let second = plan(first, usable, HorizSpec::Left, v2);
            let third = plan(second, usable, HorizSpec::Left, v3);
            &&& (first.x0, first.x1) == horiz_span(start, usable, HorizSpec::Left25)
            &&& (second.x0, second.x1) == horiz_span(start, usable, HorizSpec::Left75)
            &&& (third.x0, third.x1) == horiz_span(start, usable, HorizSpec::Left50)
        }),
{
}

/// Repeating `Right` on a window that sits at the right half walks through
/// the quarter, the three quarters and back to the half, under the same
/// condition as for `Left`.
pub proof fn lemma_right_cycle(
    start: Region,
    usable: Region,
    v1: VertSpec,
    v2: VertSpec,
    v3: VertSpec,
)
    requires
        usable.wf(),
        usable.width() != 2,
        (start.x0, start.x1) == horiz_span(start, usable, HorizSpec::Right50),
    ensures
        ({
            let first = plan(start, usable, HorizSpec::Right, v1);
            let second = plan(first, usable, HorizSpec::Right, v2);
            let third = plan(second, usable, HorizSpec::Right, v3);
            &&& (first.x0, first.x1) == horiz_span(start, usable, HorizSpec::Right25)
            &&& (second.x0, second.x1) == horiz_span(start, usable, HorizSpec::Right75)
            &&& (third.x0, third.x1) == horiz_span(start, usable, HorizSpec::Right50)
        }),
{
}

} // verus!
