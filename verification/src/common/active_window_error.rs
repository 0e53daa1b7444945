//! The one way a query can fail.

use vstd::prelude::*;

verus! {

/// Why no active window was reported.
///
/// There is a single kind on purpose: a failed system call, no focused window
/// and a refused permission are not told apart.
#[derive(Debug, Clone, Copy, PartialEq, Eq, Structural)]
pub enum ActiveWindowError {
    GetActiveWindowFailed,
}

impl ActiveWindowError {
    /// The text shown for this error.
    pub fn message(&self) -> (text: String)
        ensures
            text@ == "couldn't get active window"@,
    {
        match self {
            ActiveWindowError::GetActiveWindowFailed => "couldn't get active window".to_owned(),
        }
    }
}

} // verus!
