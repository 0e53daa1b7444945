//! Rectangles as the graphics system gives them.

use crate::common::window_position::WindowPosition;
use vstd::prelude::*;

verus! {

/// A point of the graphics system, in whole units.
#[derive(Debug, Clone, Copy, PartialEq, Eq, Structural)]
pub struct CgPoint {
    pub x: i64,
    pub y: i64,
}

/// A size of the graphics system, in whole units.
#[derive(Debug, Clone, Copy, PartialEq, Eq, Structural)]
pub struct CgSize {
    pub width: i64,
    pub height: i64,
}

/// A rectangle of the graphics system: an origin and a size.
#[derive(Debug, Clone, Copy, PartialEq, Eq, Structural)]
pub struct CgRect {
    pub origin: CgPoint,
    pub size: CgSize,
}

/// Making a window's rectangle from one of the graphics system.
pub trait FromCgRect {
    /// The rectangle with the same origin and the same size.
    fn from_cg_rect(cgrect: &CgRect) -> (position: WindowPosition)
        ensures
            position == (WindowPosition {
                x: cgrect.origin.x,
                y: cgrect.origin.y,
                width: cgrect.size.width,
                height: cgrect.size.height,
            }),
    ;
}

impl FromCgRect for WindowPosition {
    fn from_cg_rect(cgrect: &CgRect) -> (position: WindowPosition) {
        WindowPosition::new(
            cgrect.origin.x,
            cgrect.origin.y,
            cgrect.size.width,
            cgrect.size.height,
        )
    }
}

} // verus!
