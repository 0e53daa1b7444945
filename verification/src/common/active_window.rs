//! The record that describes the focused window.

use super::window_position::WindowPosition;
use vstd::prelude::*;
use vstd::std_specs::cmp::PartialEqSpec;

verus! {

/// A snapshot of the window that has input focus.
///
/// `title`, `app_name` and `process_path` are empty where the platform could
/// not tell them. `window_id` is text whose form belongs to the platform.
#[derive(Debug, Clone)]
pub struct ActiveWindow {
    pub title: String,
    pub process_path: String,
    pub app_name: String,
    pub window_id: String,
    pub process_id: u64,
    pub position: WindowPosition,
}

/// What an [`ActiveWindow`] holds, with each text as its characters.
pub struct ActiveWindowView {
    pub title: Seq<char>,
    pub process_path: Seq<char>,
    pub app_name: Seq<char>,
    pub window_id: Seq<char>,
    pub process_id: u64,
    pub position: WindowPosition,
}

impl View for ActiveWindow {
    type V = ActiveWindowView;

    open spec fn view(&self) -> ActiveWindowView {
        ActiveWindowView {
            title: self.title@,
            process_path: self.process_path@,
            app_name: self.app_name@,
            window_id: self.window_id@,
            process_id: self.process_id,
            position: self.position,
        }
    }
}

/// An optional record taken by its view.
pub open spec fn viewed_option(window: Option<ActiveWindow>) -> Option<ActiveWindowView> {
    match window {
        Some(w) => Some(w@),
        None => None,
    }
}

impl ActiveWindowView {
    /// What tells one window from another: the owning process and the
    /// window's identifier. Title, geometry, name and path may change while
    /// the window stays the same.
    pub open spec fn identity(self) -> (u64, Seq<char>) {
        (self.process_id, self.window_id)
    }
}

impl ActiveWindow {
    /// Whether the two records describe the same window.
    pub open spec fn same_window(&self, other: &ActiveWindow) -> bool {
        self@.identity() == other@.identity()
    }
}

impl PartialEq for ActiveWindow {
    /// Two records are equal when they describe the same window.
    fn eq(&self, other: &Self) -> (equal: bool) {
        self.process_id == other.process_id && self.window_id == other.window_id
    }
}

impl vstd::std_specs::cmp::PartialEqSpecImpl for ActiveWindow {
    open spec fn obeys_eq_spec() -> bool {
        true
    }

    open spec fn eq_spec(&self, other: &Self) -> bool {
        self.same_window(other)
    }
}

impl Default for ActiveWindow {
    /// The record with empty texts, process 0 and the zero rectangle.
    fn default() -> (window: ActiveWindow)
        ensures
            window@ == (ActiveWindowView {
                title: Seq::empty(),
                process_path: Seq::empty(),
                app_name: Seq::empty(),
                window_id: Seq::empty(),
                process_id: 0,
                position: WindowPosition::zero(),
            }),
    {
        ActiveWindow {
            title: String::new(),
            process_path: String::new(),
            app_name: String::new(),
            window_id: String::new(),
            process_id: 0,
            position: WindowPosition::new(0, 0, 0, 0),
        }
    }
}

/// Equality looks at the process and the window identifier and at nothing
/// else: records that agree on both are equal whatever their titles,
/// geometry, names and paths, and records that differ in either are not.
pub proof fn lemma_equality_is_identity(a: ActiveWindow, b: ActiveWindow)
    ensures
        PartialEqSpec::eq_spec(&a, &b) <==> a.process_id == b.process_id && a.window_id@
            == b.window_id@,
{
}

/// Equality of records is an equivalence relation.
pub proof fn lemma_equality_is_equivalence(a: ActiveWindow, b: ActiveWindow, c: ActiveWindow)
    ensures
        PartialEqSpec::eq_spec(&a, &a),
        PartialEqSpec::eq_spec(&a, &b) ==> PartialEqSpec::eq_spec(&b, &a),
        PartialEqSpec::eq_spec(&a, &b) && PartialEqSpec::eq_spec(&b, &c) ==> PartialEqSpec::eq_spec(
            &a,
            &c,
        ),
{
}

/// Compares two records with `==`.
pub fn is_same_window(a: &ActiveWindow, b: &ActiveWindow) -> (same: bool)
    ensures
        same == a.same_window(b),
{
    *a == *b
}

} // verus!
