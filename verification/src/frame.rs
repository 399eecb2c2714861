//! Conversion between the box of a window's content and the box of the
//! window with its decorations.

use vstd::prelude::*;
use crate::geom::{euclid_inner_box, euclid_outer_box, Box2D, Insets, Region, SideOffsets2D};

verus! {

/// Whether the decorated box around `content` stays inside the 16-bit
/// coordinate space, so that [`unframe`] may be called.
pub fn unframe_fits(content: &Box2D, extents: &SideOffsets2D) -> (ok: bool)
    ensures
        ok == content@.outer_box(extents@).representable(),
{
    let x0: i32 = content.min.x as i32 - extents.left as i32;
    let y0: i32 = content.min.y as i32 - extents.top as i32;
    let x1: i32 = content.max.x as i32 + extents.right as i32;
    let y1: i32 = content.max.y as i32 + extents.bottom as i32;
    in_range(x0) && in_range(y0) && in_range(x1) && in_range(y1)
}

/// Whether the content box inside `framed` stays inside the 16-bit
/// coordinate space, so that [`reframe`] may be called.
pub fn reframe_fits(framed: &Box2D, extents: &SideOffsets2D) -> (ok: bool)
    ensures
        ok == framed@.inner_box(extents@).representable(),
{
    let x0: i32 = framed.min.x as i32 + extents.left as i32;
    let y0: i32 = framed.min.y as i32 + extents.top as i32;
    let x1: i32 = framed.max.x as i32 - extents.right as i32;
    let y1: i32 = framed.max.y as i32 - extents.bottom as i32;
    in_range(x0) && in_range(y0) && in_range(x1) && in_range(y1)
}

fn in_range(v: i32) -> (ok: bool)
    ensures
        ok == crate::geom::is_coord(v as int),
{
    -32768 <= v && v <= 32767
}

/// The box that a window covers on screen with its frame: `content` with
/// each side moved outward by the frame's width on that side.
pub fn unframe(content: &Box2D, extents: &SideOffsets2D) -> (framed: Box2D)
    requires
        content@.outer_box(extents@).representable(),
    ensures
        framed@ == content@.outer_box(extents@),
        content.wf() && extents.wf() ==> framed.wf(),
{
    euclid_outer_box(content, extents)
}

/// The content box of a window whose frame is to cover `framed`: each side
/// moved inward by the frame's width on that side. Where the frame is wider
/// than the box the result is not well formed.
pub fn reframe(framed: &Box2D, extents: &SideOffsets2D) -> (content: Box2D)
    requires
        framed@.inner_box(extents@).representable(),
    ensures
        content@ == framed@.inner_box(extents@),
        content.wf() <==> extents@.left + extents@.right <= framed@.width() && extents@.top
            + extents@.bottom <= framed@.height(),
{
    euclid_inner_box(framed, extents)
}

/// Moving the sides outward and moving them inward by the same insets undo
/// each other, in either order, for every box and all insets.
pub proof fn lemma_frame_round_trip(b: Region, e: Insets)
    ensures
        b.outer_box(e).inner_box(e) == b,
        b.inner_box(e).outer_box(e) == b,
{
}

/// Where [`unframe`] may be called on a content box, [`reframe`] may be
/// called on what it returns, and gives the content box back.
pub proof fn lemma_reframe_undoes_unframe(content: Box2D, extents: SideOffsets2D)
    requires
        content@.outer_box(extents@).representable(),
    ensures
        content@.outer_box(extents@).inner_box(extents@).representable(),
        content@.outer_box(extents@).inner_box(extents@) == content@,
{
}

} // verus!
