//! Window placement geometry.
//!
//! Given a snapshot of the windows of a session, the library finds the
//! window that a placement is meant for, the part of its desktop that the
//! docks leave free, and the box that a request such as "left half, top"
//! asks for, with the window's frame taken into account.
//!
//! - [`geom`]: boxes, insets and their mathematical views
//! - [`session`]: the snapshot of the window tree and the search in it
//! - [`ancestry`]: why the walks towards the root are complete
//! - [`frame`]: between the box of the content and the box with the frame
//! - [`area`]: the usable area of a desktop
//! - [`plan`]: from a request to a box
//! - [`placement`]: all of the above in a row
//! - [`condargs`]: conditions and percentages as the command line writes them
//! - [`order`]: ids of an ordered set in their order

pub mod ancestry;
pub mod area;
pub mod condargs;
pub mod frame;
pub mod geom;
pub mod order;
pub mod placement;
pub mod plan;
pub mod session;
