//! Rectangles as the window system gives them.

use crate::common::window_position::WindowPosition;
use vstd::prelude::*;

verus! {

/// A rectangle of the window system: the coordinates of its left, top,
/// right and bottom edges.
#[derive(Debug, Clone, Copy, PartialEq, Eq, Structural)]
pub struct WinRect {
    pub left: i32,
    pub top: i32,
    pub right: i32,
    pub bottom: i32,
}

/// The rectangle with the same left and top edge, as wide as the edges are
/// apart.
pub open spec fn win_rect_position(rect: WinRect) -> WindowPosition {
    WindowPosition {
        x: rect.left as i64,
        y: rect.top as i64,
        width: (rect.right - rect.left) as i64,
        height: (rect.bottom - rect.top) as i64,
    }
}

/// Making a window's rectangle from one of the window system.
pub trait FromWinRect {
    /// The rectangle with the same left and top edge, as wide and as high
    /// as the edges are apart.
    fn from_win_rect(rect: &WinRect) -> (position: WindowPosition)
        ensures
            position == win_rect_position(*rect),
    ;
}

impl FromWinRect for WindowPosition {
    fn from_win_rect(rect: &WinRect) -> (position: WindowPosition) {
        WindowPosition::new(
            rect.left as i64,
            rect.top as i64,
            rect.right as i64 - rect.left as i64,
            rect.bottom as i64 - rect.top as i64,
        )
    }
}

} // verus!
