//! The whole way from a window of the snapshot and a placement request to
//! the geometry to ask of the server.

use vstd::prelude::*;
use crate::area::{available, available_region, NoDesktop};
use crate::frame::{reframe, reframe_fits, unframe, unframe_fits};
use crate::geom::{Box2D, Insets, Region, SideOffsets2D};
use crate::plan::{compute_target_bounds, plan, HorizSpec, VertSpec};
use crate::session::WindowGroup;

verus! {

/// Why a window cannot be placed.
#[derive(Clone, Copy, Debug, PartialEq, Eq, Structural)]
pub enum PlacementError {
    /// No desktop lies under the window.
    NoDesktop,
    /// The window has no box in the coordinate space, or its frame or its
    /// new content box would leave that space.
    OutOfRange,
}

/// The content box to ask for, so that window `id` with a frame of
/// `extents` comes to lie where the request says.
///
/// The window's box is taken with its frame, the usable area of the desktop
/// under it is found, the request is planned for the framed box in that
/// area, and the frame is taken off the planned box again.
pub open spec fn placement(
    group: &WindowGroup,
    id: u32,
    extents: Insets,
    horiz: HorizSpec,
    vert: VertSpec,
) -> Result<Region, PlacementError> {
    match group.placed_region(id) {
        None => Err(PlacementError::OutOfRange),
        Some(content) => {
            let framed = content.outer_box(extents);
            if !framed.representable() {
                Err(PlacementError::OutOfRange)
            } else {
                match available_region(group, framed) {
                    None => Err(PlacementError::NoDesktop),
                    Some(usable) => {
                        let content = plan(framed, usable, horiz, vert).inner_box(extents);
                        if content.representable() {
                            Ok(content)
                        } else {
                            Err(PlacementError::OutOfRange)
                        }
                    },
                }
            }
        },
    }
}

/// The content box to ask of the server for window `id`, whose frame has
/// the widths `extents`, under the request (`horiz`, `vert`).
pub fn place_window(
    group: &WindowGroup,
    id: u32,
    extents: &SideOffsets2D,
    horiz: HorizSpec,
    vert: VertSpec,
) -> (r: Result<Box2D, PlacementError>)
    ensures
        match r {
            Ok(b) => placement(group, id, extents@, horiz, vert) == Ok::<Region, PlacementError>(b@),
            Err(e) => placement(group, id, extents@, horiz, vert) == Err::<Region, PlacementError>(e),
        },
{
    let content = match group.abs_box(id) {
        Some(b) => b,
        None => {
            return Err(PlacementError::OutOfRange);
        },
    };
    if !unframe_fits(&content, extents) {
        return Err(PlacementError::OutOfRange);
    }
    let framed = unframe(&content, extents);
    let usable = match available(&framed, group) {
        Ok(u) => u,
        Err(NoDesktop) => {
            return Err(PlacementError::NoDesktop);
        },
    };
    let planned = compute_target_bounds(&framed, &usable, horiz, vert);
    if !reframe_fits(&planned, extents) {
        return Err(PlacementError::OutOfRange);
    }
    Ok(reframe(&planned, extents))
}

} // verus!
