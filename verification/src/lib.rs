//! Answers one question: which window has input focus, and where is it on screen.
//!
//! The library holds the rules by which each windowing environment's answers are
//! turned into one record, [`ActiveWindow`], or into the one failure,
//! [`ActiveWindowError`]. It never talks to an operating system itself: a caller
//! hands it what the system answered, as plain values, and gets the record back.

pub mod common;
pub mod linux;
pub mod mac;
pub mod text;
pub mod win;

pub use common::active_window::ActiveWindow;
pub use common::active_window_error::ActiveWindowError;
pub use common::platform_api::PlatformApi;
pub use common::window_position::WindowPosition;

use common::platform_api::viewed;
use vstd::prelude::*;

verus! {

/// The rectangle of the focused window, from what the platform's windowing
/// environment reported.
pub fn get_position<P: PlatformApi>(api: &P, answers: &P::Answers) -> (position: Result<
    WindowPosition,
    ActiveWindowError,
>)
    ensures
        position == P::position(answers),
{
    api.get_position(answers)
}

/// The record of the focused window, from what the platform's windowing
/// environment reported.
pub fn get_active_window<P: PlatformApi>(api: &P, answers: &P::Answers) -> (window: Result<
    ActiveWindow,
    ActiveWindowError,
>)
    ensures
        viewed(window) == P::active_window(answers),
{
    api.get_active_window(answers)
}

/// On every platform the two questions agree: whenever the full query
/// gives a record, the query for the rectangle alone, on the same answers,
/// gives the rectangle of that record.
pub proof fn lemma_position_is_that_of_the_record<P: PlatformApi>(answers: &P::Answers)
    ensures
        P::active_window(answers) matches Ok(window) ==> P::position(answers) == Ok::<
            WindowPosition,
            ActiveWindowError,
        >(window.position),
{
    P::lemma_position_agrees(answers);
}

} // verus!
