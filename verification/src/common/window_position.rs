//! The rectangle a window covers on screen.

use vstd::prelude::*;

verus! {

/// A rectangle in screen coordinates, in whole units.
///
/// The origin and the direction of the axes are those of the platform that
/// reported the rectangle; nothing is normalised between platforms.
#[derive(Debug, Clone, Copy, PartialEq, Eq, Structural)]
pub struct WindowPosition {
    pub x: i64,
    pub y: i64,
    pub width: i64,
    pub height: i64,
}

impl WindowPosition {
    /// The zero rectangle, which stands for "no geometry known".
    pub open spec fn zero() -> WindowPosition {
        WindowPosition { x: 0, y: 0, width: 0, height: 0 }
    }

    /// The rectangle with the given corner and size.
    pub fn new(x: i64, y: i64, w: i64, h: i64) -> (position: WindowPosition)
        ensures
            position == (WindowPosition { x, y, width: w, height: h }),
    {
        WindowPosition { x, y, width: w, height: h }
    }
}

impl Default for WindowPosition {
    /// The zero rectangle.
    fn default() -> (position: WindowPosition)
        ensures
            position == WindowPosition::zero(),
    {
        WindowPosition::new(0, 0, 0, 0)
    }
}

} // verus!
