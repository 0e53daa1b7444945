//! The contract that every platform's query meets.

use super::active_window::{ActiveWindow, ActiveWindowView};
use super::active_window_error::ActiveWindowError;
use super::window_position::WindowPosition;
use vstd::prelude::*;

verus! {

/// The result of a query with the record taken by its view.
pub open spec fn viewed(
    result: Result<ActiveWindow, ActiveWindowError>,
) -> Result<ActiveWindowView, ActiveWindowError> {
    match result {
        Ok(window) => Ok(window@),
        Err(error) => Err(error),
    }
}

/// The rectangle in the result of a query.
pub open spec fn position_of(
    result: Result<ActiveWindowView, ActiveWindowError>,
) -> Result<WindowPosition, ActiveWindowError> {
    match result {
        Ok(window) => Ok(window.position),
        Err(error) => Err(error),
    }
}

/// The two questions a platform answers, from what its windowing environment
/// reported.
///
/// A platform holds no state: the same answers always give the same result.
pub trait PlatformApi {
    /// What the windowing environment reported.
    type Answers;

    /// The record that the answers describe, or the failure.
    spec fn active_window(answers: &Self::Answers) -> Result<ActiveWindowView, ActiveWindowError>;

    /// The rectangle that the answers describe, or the failure.
    spec fn position(answers: &Self::Answers) -> Result<WindowPosition, ActiveWindowError>;

    /// The two questions agree: whenever the answers describe a record, the
    /// rectangle that they describe is the one in that record.
    proof fn lemma_position_agrees(answers: &Self::Answers)
        ensures
            Self::active_window(answers) matches Ok(window) ==> Self::position(answers) == Ok::<
                WindowPosition,
                ActiveWindowError,
            >(window.position),
    ;

    /// The rectangle of the focused window.
    fn get_position(&self, answers: &Self::Answers) -> (position: Result<
        WindowPosition,
        ActiveWindowError,
    >)
        ensures
            position == Self::position(answers),
    ;

    /// The full record of the focused window.
    fn get_active_window(&self, answers: &Self::Answers) -> (window: Result<
        ActiveWindow,
        ActiveWindowError,
    >)
        ensures
            viewed(window) == Self::active_window(answers),
    ;
}

} // verus!
