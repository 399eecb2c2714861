//! The area of a desktop that a window may take: the desktop under the
//! window, less what the docks reserve.

use vstd::prelude::*;
use crate::geom::{Box2D, Point2D, Region};
use crate::order::ascending;
use crate::session::WindowGroup;

verus! {

/// No desktop of the snapshot lies under the window.
#[derive(Clone, Copy, Debug, PartialEq, Eq, Structural)]
pub struct NoDesktop;

/// One more than the largest window id.
pub open spec fn id_limit() -> nat {
    0x1_0000_0000
}

/// What is left of `avail` on the sides of `cut`, a part of `avail`: the
/// strip to its left, the strip to its right, the strip above it and the
/// strip below it, in this order, each only where `cut` does not reach that
/// edge of `avail`.
pub open spec fn remainders(avail: Region, cut: Region) -> Seq<Region> {
    let left = if cut.x0 > avail.x0 {
        seq![Region { x1: cut.x0, ..avail }]
    } else {
        seq![]
    };
    let right = if cut.x1 < avail.x1 {
        seq![Region { x0: cut.x1, ..avail }]
    } else {
        seq![]
    };
    let above = if cut.y0 > avail.y0 {
        seq![Region { y1: cut.y0, ..avail }]
    } else {
        seq![]
    };
    let below = if cut.y1 < avail.y1 {
        seq![Region { y0: cut.y1, ..avail }]
    } else {
        seq![]
    };
    left + right + above + below
}

/// The usable area after one dock: `avail` unchanged where the dock covers
/// none of it or all of it, and else the last of the strips that the dock
/// leaves free.
pub open spec fn without_dock(avail: Region, dock: Region) -> Region {
    match avail.intersection(dock) {
        None => avail,
        Some(cut) => if cut == avail {
            avail
        } else {
            remainders(avail, cut).last()
        },
    }
}

/// The region that dock `id` reserves, where `id` is a dock with a box in
/// the coordinate space.
pub open spec fn dock_region(group: &WindowGroup, id: u32) -> Option<Region> {
    if group.is_dock(id) {
        group.placed_region(id)
    } else {
        None
    }
}

/// `start` less every dock with an id below `upto`, the docks taken in
/// ascending order of their ids.
pub open spec fn minus_docks(group: &WindowGroup, start: Region, upto: nat) -> Region
    decreases upto,
{
    if upto == 0 {
        start
    } else {
        let before = minus_docks(group, start, (upto - 1) as nat);
        match dock_region(group, (upto - 1) as u32) {
            Some(d) => without_dock(before, d),
            None => before,
        }
    }
}

/// Whether `id` is a desktop whose box overlaps `target`.
pub open spec fn desktop_under(group: &WindowGroup, target: Region, id: u32) -> bool {
    group.is_desktop(id) && match group.placed_region(id) {
        Some(d) => d.intersects(target),
        None => false,
    }
}

/// Whether `id` is the desktop of `target`: the one with the smallest id
/// among the desktops that overlap it.
pub open spec fn is_desktop_of(group: &WindowGroup, target: Region, id: u32) -> bool {
    desktop_under(group, target, id) && forall|e: u32| e < id ==> !desktop_under(group, target, e)
}

/// The usable area for a window that covers `target`: its desktop less all
/// docks. `None` where no desktop overlaps `target`.
pub open spec fn available_region(group: &WindowGroup, target: Region) -> Option<Region> {
    if exists|d: u32| is_desktop_of(group, target, d) {
        let d = choose|d: u32| is_desktop_of(group, target, d);
        Some(minus_docks(group, group.placed_region(d)->0, id_limit()))
    } else {
        None
    }
}

/// A dock that covers a part of the usable area, and not all of it, leaves
/// at least one strip free.
pub proof fn lemma_remainders_exist(avail: Region, dock: Region)
    requires
        avail.intersection(dock) is Some,
        avail.intersection(dock) != Some(avail),
    ensures
        remainders(avail, avail.intersection(dock)->0).len() > 0,
{
}

/// Docks that reserve nothing do not change the usable area.
pub proof fn lemma_minus_docks_skip(group: &WindowGroup, start: Region, lo: nat, hi: nat)
    requires
        lo <= hi <= id_limit(),
        forall|id: u32| lo <= id < hi ==> dock_region(group, id) is None,
    ensures
        minus_docks(group, start, hi) == minus_docks(group, start, lo),
    decreases hi - lo,
{
    if lo < hi {
        lemma_minus_docks_skip(group, start, lo, (hi - 1) as nat);
        assert(dock_region(group, (hi - 1) as u32) is None);
    }
}

/// The usable area after one dock.
///
/// A dock that does not overlap the area, and a dock that covers all of it,
/// leave it as it is. Any other dock leaves up to four strips free: to its
/// left, to its right, above it and below it. The area becomes the last of
/// these in that order.
pub fn subtract_dock(avail: &Box2D, dock: &Box2D) -> (r: Box2D)
    ensures
        r@ == without_dock(avail@, dock@),
        dock@ == avail@ ==> r == *avail,
        !avail@.intersects(dock@) ==> r == *avail,
        r@.within(avail@),
        avail.wf() ==> r.wf(),
{
    let cut = match avail.intersection(dock) {
        Some(cut) => cut,
        None => {
            return *avail;
        },
    };
    if cut == *avail {
        return *avail;
    }
    let mut r = *avail;
    let ghost mut strips: Seq<Region> = seq![];
    if cut.min.x > avail.min.x {
        r = Box2D { min: avail.min, max: Point2D { x: cut.min.x, y: avail.max.y } };
        proof {
            strips = strips + seq![r@];
        }
    }
    if cut.max.x < avail.max.x {
        r = Box2D { min: Point2D { x: cut.max.x, y: avail.min.y }, max: avail.max };
        proof {
            strips = strips + seq![r@];
        }
    }
    if cut.min.y > avail.min.y {
        r = Box2D { min: avail.min, max: Point2D { x: avail.max.x, y: cut.min.y } };
        proof {
            strips = strips + seq![r@];
        }
    }
    if cut.max.y < avail.max.y {
        r = Box2D { min: Point2D { x: avail.min.x, y: cut.max.y }, max: avail.max };
        proof {
            strips = strips + seq![r@];
        }
    }
    proof {
        lemma_remainders_exist(avail@, dock@);
        assert(strips =~= remainders(avail@, cut@));
    }
    r
}

/// The desktop under a window that covers `target`: of the desktops whose
/// box overlaps `target`, the one with the smallest id.
pub fn desktop_of(target: &Box2D, group: &WindowGroup) -> (r: Result<(u32, Box2D), NoDesktop>)
    ensures
        match r {
            Ok((id, b)) => is_desktop_of(group, target@, id) && group.placed_region(id) == Some(b@)
                && b.wf(),
            Err(_) => forall|id: u32| !desktop_under(group, target@, id),
        },
{
    let ids = group.desktops();
    let mut i: usize = 0;
    while i < ids.len()
        invariant
            i <= ids.len(),
            ascending(ids@),
            forall|id: u32| ids@.contains(id) <==> group.is_desktop(id),
            forall|j: int| 0 <= j < i ==> !desktop_under(group, target@, #[trigger] ids@[j]),
        decreases ids.len() - i,
    {
        let id = ids[i];
        if let Some(b) = group.abs_box(id) {
            if b.intersects(target) {
                proof {
                    assert forall|e: u32| e < id implies !desktop_under(group, target@, e) by {
                        if desktop_under(group, target@, e) {
                            assert(ids@.contains(e));
                            let m = choose|m: int| 0 <= m < ids@.len() && ids@[m] == e;
                            assert(m < i);
                        }
                    }
                }
                return Ok((id, b));
            }
        }
        i = i + 1;
    }
    proof {
        assert forall|id: u32| !desktop_under(group, target@, id) by {
            if desktop_under(group, target@, id) {
                assert(ids@.contains(id));
                let m = choose|m: int| 0 <= m < ids@.len() && ids@[m] == id;
                assert(!desktop_under(group, target@, ids@[m]));
            }
        }
    }
    Err(NoDesktop)
}

/// `start` less every dock of the snapshot, the docks taken in ascending
/// order of their ids. A dock without a box in the coordinate space
/// reserves nothing.
pub fn subtract_docks(start: &Box2D, group: &WindowGroup) -> (r: Box2D)
    ensures
        r@ == minus_docks(group, start@, id_limit()),
        r@.within(start@),
        start.wf() ==> r.wf(),
{
    let ids = group.docks();
    let mut acc = *start;
    let mut i: usize = 0;
    let ghost mut done: nat = 0;
    while i < ids.len()
        invariant
            i <= ids.len(),
            ascending(ids@),
            forall|id: u32| ids@.contains(id) <==> group.is_dock(id),
            done <= id_limit(),
            i > 0 ==> done == ids@[i - 1] + 1,
            i == 0 ==> done == 0,
            acc@ == minus_docks(group, start@, done),
            acc@.within(start@),
            start.wf() ==> acc.wf(),
        decreases ids.len() - i,
    {
        let id = ids[i];
        proof {
            assert forall|e: u32| done <= e < id implies dock_region(group, e) is None by {
                if group.is_dock(e) {
                    assert(ids@.contains(e));
                    let m = choose|m: int| 0 <= m < ids@.len() && ids@[m] == e;
                    if m < i - 1 {
                        assert(ids@[m] < ids@[i - 1]);
                    }
                }
            }
            lemma_minus_docks_skip(group, start@, done, id as nat);
            assert(ids@.contains(id));
        }
        if let Some(b) = group.abs_box(id) {
            acc = subtract_dock(&acc, &b);
        }
        proof {
            done = (id + 1) as nat;
        }
        i = i + 1;
    }
    proof {
        assert forall|e: u32| done <= e < id_limit() implies dock_region(group, e) is None by {
            if group.is_dock(e) {
                assert(ids@.contains(e));
                let m = choose|m: int| 0 <= m < ids@.len() && ids@[m] == e;
                if m < ids@.len() - 1 {
                    assert(ids@[m] < ids@[ids@.len() - 1]);
                }
            }
        }
        lemma_minus_docks_skip(group, start@, done, id_limit());
    }
    acc
}

/// The usable area for a window that covers `target`.
///
/// The desktops are gone through in ascending order of their ids, and the
/// first whose box overlaps `target` is taken. Then each dock, in ascending
/// order of the ids, takes its part off what is left.
pub fn available(target: &Box2D, group: &WindowGroup) -> (r: Result<Box2D, NoDesktop>)
    ensures
        match r {
            Ok(b) => available_region(group, target@) == Some(b@) && b.wf(),
            Err(_) => available_region(group, target@) is None,
        },
        r is Err <==> forall|id: u32| !desktop_under(group, target@, id),
        r matches Ok(b) ==> exists|id: u32|
            is_desktop_of(group, target@, id) && b@.within(group.placed_region(id)->0),
{
    match desktop_of(target, group) {
        Ok((id, b)) => {
            proof {
                let d = choose|d: u32| is_desktop_of(group, target@, d);
                assert(d == id);
            }
            Ok(subtract_docks(&b, group))
        },
        Err(e) => Err(e),
    }
}

} // verus!
