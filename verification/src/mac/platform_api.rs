//! The scan of the on-screen window list for the frontmost application's
//! window.
//!
//! Each window of the list is a dictionary whose values come in several
//! types. A value is read by the type that it says it has, never by the type
//! that its key would suggest.

use super::window_position::{CgRect, FromCgRect};
use crate::common::active_window::{viewed_option, ActiveWindow, ActiveWindowView};
use crate::common::active_window_error::ActiveWindowError;
use crate::common::platform_api::{position_of, PlatformApi};
use crate::common::window_position::WindowPosition;
use crate::text::chars::{from_chars, same_text};
use crate::text::number::{signed_decimal, signed_decimal_chars};
use vstd::prelude::*;

verus! {

/// The tag of a number that is stored as a signed 32-bit integer.
pub const NUMBER_TYPE_SINT32: i64 = 3;

/// The tag of a number that is stored as a signed 64-bit integer.
pub const NUMBER_TYPE_SINT64: i64 = 4;

/// The side below which a rectangle is no window but a tooltip, a menu or
/// the like.
pub const MIN_WINDOW_SIDE: i64 = 50;

/// A value of a window's dictionary as the system hands it over, with the
/// type that it says it has.
#[derive(Debug)]
pub enum RawValue {
    /// A number, with the tag of its storage type and what reading it as a
    /// 32-bit and as a 64-bit integer gave; `None` where the read lost
    /// something or failed.
    Number { number_type: i64, as_i32: Option<i32>, as_i64: Option<i64> },
    /// A boolean.
    Boolean(bool),
    /// A string.
    Text(String),
    /// A dictionary, as the rectangle that it represents.
    Dictionary(CgRect),
    /// A value of any other type, or a dictionary that represents no
    /// rectangle.
    Other,
}

/// One entry of a window's dictionary.
#[derive(Debug)]
pub struct DictEntry {
    pub key: String,
    pub value: RawValue,
}

/// A value of a window's dictionary once it is read.
#[derive(Debug)]
pub enum DictEntryValue {
    Number(i64),
    Bool(bool),
    Text(String),
    Rect(WindowPosition),
    Unknown,
}

/// The key under which a window's dictionary holds its rectangle.
pub open spec fn bounds_key() -> Seq<char> {
    "kCGWindowBounds"@
}

/// What a raw value found under `key` is read as. A number counts only in
/// one of the two storage types that are known, read at its own width; a
/// dictionary counts only as the window's rectangle.
pub open spec fn read_value(value: RawValue, key: Seq<char>) -> DictEntryValue {
    match value {
        RawValue::Number { number_type, as_i32, as_i64 } => if number_type == NUMBER_TYPE_SINT64
            && as_i64 is Some {
            DictEntryValue::Number(as_i64->0)
        } else if number_type == NUMBER_TYPE_SINT32 && as_i32 is Some {
            DictEntryValue::Number(as_i32->0 as i64)
        } else {
            DictEntryValue::Unknown
        },
        RawValue::Boolean(b) => DictEntryValue::Bool(b),
        RawValue::Text(text) => DictEntryValue::Text(text),
        RawValue::Dictionary(rect) => if key == bounds_key() {
            DictEntryValue::Rect(
                WindowPosition {
                    x: rect.origin.x,
                    y: rect.origin.y,
                    width: rect.size.width,
                    height: rect.size.height,
                },
            )
        } else {
            DictEntryValue::Unknown
        },
        RawValue::Other => DictEntryValue::Unknown,
    }
}

/// What a dictionary holds under `key`: the first entry with that key, read
/// by its type, and `Unknown` where there is no such entry.
pub open spec fn entry_value(dict: Seq<DictEntry>, key: Seq<char>) -> DictEntryValue
    decreases dict.len(),
{
    if dict.len() == 0 {
        DictEntryValue::Unknown
    } else if dict[0].key@ == key {
        read_value(dict[0].value, key)
    } else {
        entry_value(dict.drop_first(), key)
    }
}

/// Reads a raw value by its type.
fn read_raw_value(value: &RawValue, key: &str) -> (read: DictEntryValue)
    ensures
        read == read_value(*value, key@),
{
    match value {
        RawValue::Number { number_type, as_i32, as_i64 } => {
            if *number_type == NUMBER_TYPE_SINT64 {
                match as_i64 {
                    Some(number) => { return DictEntryValue::Number(*number); },
                    None => {},
                }
            }
            if *number_type == NUMBER_TYPE_SINT32 {
                match as_i32 {
                    Some(number) => { return DictEntryValue::Number(*number as i64); },
                    None => {},
                }
            }
            DictEntryValue::Unknown
        },
        RawValue::Boolean(b) => DictEntryValue::Bool(*b),
        RawValue::Text(text) => DictEntryValue::Text(text.clone()),
        RawValue::Dictionary(rect) => {
            if same_text(key, "kCGWindowBounds") {
                DictEntryValue::Rect(WindowPosition::from_cg_rect(rect))
            } else {
                DictEntryValue::Unknown
            }
        },
        RawValue::Other => DictEntryValue::Unknown,
    }
}

/// Looks a key up in a window's dictionary and reads its value by the type
/// that the value has.
pub fn get_from_dict(dict: &Vec<DictEntry>, key: &str) -> (value: DictEntryValue)
    ensures
        value == entry_value(dict@, key@),
{
    let mut i: usize = 0;
    assert(dict@.skip(0) == dict@);
    while i < dict.len()
        invariant
            i <= dict.len(),
            entry_value(dict@, key@) == entry_value(dict@.skip(i as int), key@),
        decreases dict.len() - i,
    {
        assert(dict@.skip(i as int)[0] == dict@[i as int]);
        assert(dict@.skip(i as int).drop_first() == dict@.skip(i + 1));
        if same_text(dict[i].key.as_str(), key) {
            return read_raw_value(&dict[i].value, key);
        }
        i += 1;
    }
    DictEntryValue::Unknown
}

/// What the system reported: the frontmost application, where its bundle
/// lies, and the windows on screen from front to back.
#[derive(Debug)]
pub struct MacAnswers {
    /// The process id of the frontmost application.
    pub frontmost_pid: i32,
    /// The path of its bundle, if it has one.
    pub bundle_path: Option<String>,
    /// The dictionaries of the windows on screen, desktop elements left
    /// out, the frontmost first.
    pub windows: Vec<Vec<DictEntry>>,
}

/// The text of a value that is a string, and the empty text for any other.
pub open spec fn value_text(value: DictEntryValue) -> Seq<char> {
    match value {
        DictEntryValue::Text(text) => text@,
        _ => Seq::<char>::empty(),
    }
}

/// Whether the value is a rectangle with a side that is too short for a
/// window.
pub open spec fn is_undersized(bounds: DictEntryValue) -> bool {
    bounds matches DictEntryValue::Rect(rect) && (rect.width < MIN_WINDOW_SIDE || rect.height
        < MIN_WINDOW_SIDE)
}

/// Whether a window of the list is the one sought: there is a frontmost
/// application and it owns the window, the window has a rectangle that is
/// not undersized, and it has a window number. A window without a rectangle
/// that can be read is none: a record cannot do without its geometry.
pub open spec fn is_sought(dict: Seq<DictEntry>, frontmost_pid: i32) -> bool {
    let bounds = entry_value(dict, "kCGWindowBounds"@);
    &&& frontmost_pid >= 0
    &&& entry_value(dict, "kCGWindowOwnerPID"@) == DictEntryValue::Number(frontmost_pid as i64)
    &&& bounds is Rect
    &&& bounds->Rect_0.width >= MIN_WINDOW_SIDE
    &&& bounds->Rect_0.height >= MIN_WINDOW_SIDE
    &&& entry_value(dict, "kCGWindowNumber"@) is Number
}

/// The record that one window of the list gives, if it is the one sought:
/// its rectangle, its number in decimal and the frontmost application's
/// process and bundle. Title and owner name are empty where the dictionary
/// has no string for them.
pub open spec fn window_record(dict: Seq<DictEntry>, frontmost_pid: i32, bundle_path: Seq<char>)
    -> Option<ActiveWindowView> {
    if is_sought(dict, frontmost_pid) {
        Some(
            ActiveWindowView {
                title: value_text(entry_value(dict, "kCGWindowName"@)),
                process_path: bundle_path,
                app_name: value_text(entry_value(dict, "kCGWindowOwnerName"@)),
                window_id: signed_decimal(entry_value(dict, "kCGWindowNumber"@)->Number_0 as int),
                process_id: frontmost_pid as u64,
                position: entry_value(dict, "kCGWindowBounds"@)->Rect_0,
            },
        )
    } else {
        None
    }
}

/// The record of the first window of the list that gives one.
pub open spec fn first_window_record(
    windows: Seq<Vec<DictEntry>>,
    frontmost_pid: i32,
    bundle_path: Seq<char>,
) -> Option<ActiveWindowView>
    decreases windows.len(),
{
    if windows.len() == 0 {
        None
    } else {
        match window_record(windows[0]@, frontmost_pid, bundle_path) {
            Some(record) => Some(record),
            None => first_window_record(windows.drop_first(), frontmost_pid, bundle_path),
        }
    }
}

/// The path, or the empty text where there is none.
pub open spec fn path_or_empty(path: Option<String>) -> Seq<char> {
    match path {
        Some(p) => p@,
        None => Seq::<char>::empty(),
    }
}

/// The record that the system's answers describe: that of the frontmost
/// window of the frontmost application that has a number and a rectangle
/// large enough to be a window, and the failure where the list has no such
/// window or the system names no frontmost application.
pub open spec fn mac_window(answers: MacAnswers) -> Result<ActiveWindowView, ActiveWindowError> {
    match first_window_record(
        answers.windows@,
        answers.frontmost_pid,
        path_or_empty(answers.bundle_path),
    ) {
        Some(record) => Ok(record),
        None => Err(ActiveWindowError::GetActiveWindowFailed),
    }
}

/// Reads one window of the list.
fn read_window(dict: &Vec<DictEntry>, frontmost_pid: i32, bundle_path: &str) -> (record: Option<
    ActiveWindow,
>)
    ensures
        viewed_option(record) == window_record(
            dict@,
            frontmost_pid,
            bundle_path@,
        ),
{
    if frontmost_pid < 0 {
        return None;
    }
    match get_from_dict(dict, "kCGWindowOwnerPID") {
        DictEntryValue::Number(owner) => {
            if owner != frontmost_pid as i64 {
                return None;
            }
        },
        _ => { return None; },
    }
    let position = match get_from_dict(dict, "kCGWindowBounds") {
        DictEntryValue::Rect(bounds) => {
            if bounds.width < MIN_WINDOW_SIDE || bounds.height < MIN_WINDOW_SIDE {
                return None;
            }
            bounds
        },
        _ => { return None; },
    };
    let title = match get_from_dict(dict, "kCGWindowName") {
        DictEntryValue::Text(text) => text,
        _ => String::new(),
    };
    let app_name = match get_from_dict(dict, "kCGWindowOwnerName") {
        DictEntryValue::Text(text) => text,
        _ => String::new(),
    };
    match get_from_dict(dict, "kCGWindowNumber") {
        DictEntryValue::Number(number) => Some(
            ActiveWindow {
                title,
                process_path: bundle_path.to_owned(),
                app_name,
                window_id: from_chars(&signed_decimal_chars(number)),
                process_id: frontmost_pid as u64,
                position,
            },
        ),
        _ => None,
    }
}

/// The platform that lists its windows.
#[derive(Debug, Clone, Copy, PartialEq, Eq, Structural)]
pub struct MacPlatformApi {}

impl PlatformApi for MacPlatformApi {
    type Answers = MacAnswers;

    open spec fn active_window(answers: &MacAnswers) -> Result<
        ActiveWindowView,
        ActiveWindowError,
    > {
        mac_window(*answers)
    }

    open spec fn position(answers: &MacAnswers) -> Result<WindowPosition, ActiveWindowError> {
        position_of(mac_window(*answers))
    }

    proof fn lemma_position_agrees(answers: &MacAnswers) {
    }

    fn get_position(&self, answers: &MacAnswers) -> (position: Result<
        WindowPosition,
        ActiveWindowError,
    >) {
        match self.get_active_window(answers) {
            Ok(window) => Ok(window.position),
            Err(error) => Err(error),
        }
    }

    /// Scans the window list from the front and gives the first window that
    /// belongs to the frontmost application, is not undersized and has a
    /// window number.
    fn get_active_window(&self, answers: &MacAnswers) -> (window: Result<
        ActiveWindow,
        ActiveWindowError,
    >) {
        let bundle_path: String = match &answers.bundle_path {
            Some(path) => path.clone(),
            None => String::new(),
        };
        let mut i: usize = 0;
        assert(answers.windows@.skip(0) == answers.windows@);
        while i < answers.windows.len()
            invariant
                i <= answers.windows.len(),
                bundle_path@ == path_or_empty(answers.bundle_path),
                first_window_record(answers.windows@, answers.frontmost_pid, bundle_path@)
                    == first_window_record(
                    answers.windows@.skip(i as int),
                    answers.frontmost_pid,
                    bundle_path@,
                ),
            decreases answers.windows.len() - i,
        {
            assert(answers.windows@.skip(i as int)[0] == answers.windows@[i as int]);
            assert(answers.windows@.skip(i as int).drop_first() == answers.windows@.skip(i + 1));
            match read_window(&answers.windows[i], answers.frontmost_pid, bundle_path.as_str()) {
                Some(record) => { return Ok(record); },
                None => {},
            }
            i += 1;
        }
        Err(ActiveWindowError::GetActiveWindowFailed)
    }
}

/// A window of the frontmost application that is too small to be a window
/// is passed over: the scan gives what the rest of the list gives, and
/// fails where the rest has nothing.
pub proof fn lemma_undersized_is_skipped(
    first: Vec<DictEntry>,
    rest: Seq<Vec<DictEntry>>,
    frontmost_pid: i32,
    bundle_path: Seq<char>,
)
    requires
        is_undersized(entry_value(first@, bounds_key())),
    ensures
        first_window_record(seq![first] + rest, frontmost_pid, bundle_path) == first_window_record(
            rest,
            frontmost_pid,
            bundle_path,
        ),
{
    assert((seq![first] + rest).drop_first() == rest);
}

/// A window of another application is passed over, whatever its size.
pub proof fn lemma_foreign_is_skipped(
    first: Vec<DictEntry>,
    rest: Seq<Vec<DictEntry>>,
    frontmost_pid: i32,
    bundle_path: Seq<char>,
)
    requires
        entry_value(first@, "kCGWindowOwnerPID"@) != DictEntryValue::Number(frontmost_pid as i64),
    ensures
        first_window_record(seq![first] + rest, frontmost_pid, bundle_path) == first_window_record(
            rest,
            frontmost_pid,
            bundle_path,
        ),
{
    assert((seq![first] + rest).drop_first() == rest);
}

/// A window of the frontmost application whose rectangle cannot be read
/// is passed over: no record is made with a rectangle that the system did
/// not give.
pub proof fn lemma_unreadable_bounds_are_skipped(
    first: Vec<DictEntry>,
    rest: Seq<Vec<DictEntry>>,
    frontmost_pid: i32,
    bundle_path: Seq<char>,
)
    requires
        !(entry_value(first@, bounds_key()) is Rect),
    ensures
        first_window_record(seq![first] + rest, frontmost_pid, bundle_path) == first_window_record(
            rest,
            frontmost_pid,
            bundle_path,
        ),
{
    assert((seq![first] + rest).drop_first() == rest);
}

/// The scan gives a record if and only if some window of the list is the
/// one sought.
pub proof fn lemma_record_iff_sought(
    windows: Seq<Vec<DictEntry>>,
    frontmost_pid: i32,
    bundle_path: Seq<char>,
)
    ensures
        first_window_record(windows, frontmost_pid, bundle_path) is Some <==> exists|i: int|
            0 <= i < windows.len() && is_sought(#[trigger] windows[i]@, frontmost_pid),
    decreases windows.len(),
{
    if windows.len() > 0 {
        let rest = windows.drop_first();
        lemma_record_iff_sought(rest, frontmost_pid, bundle_path);
        if is_sought(windows[0]@, frontmost_pid) {
        } else if first_window_record(rest, frontmost_pid, bundle_path) is Some {
            let i = choose|i: int| 0 <= i < rest.len() && is_sought(
                #[trigger] rest[i]@,
                frontmost_pid,
            );
            assert(windows[i + 1] == rest[i]);
        } else {
            assert forall|i: int| 0 <= i < windows.len() implies !is_sought(
                #[trigger] windows[i]@,
                frontmost_pid,
            ) by {
                if i > 0 {
                    assert(rest[i - 1] == windows[i]);
                }
            }
        }
    }
}

/// What the scan gives is the record of the first window that is the one
/// sought: it belongs to the frontmost application, and its rectangle is
/// one that the system gave and is large enough.
pub proof fn lemma_record_is_first_sought(
    windows: Seq<Vec<DictEntry>>,
    frontmost_pid: i32,
    bundle_path: Seq<char>,
)
    ensures
        first_window_record(windows, frontmost_pid, bundle_path) matches Some(record) ==> exists|
            i: int,
        |
            {
                &&& 0 <= i < windows.len()
                &&& Some(record) == window_record(#[trigger] windows[i]@, frontmost_pid, bundle_path)
                &&& forall|j: int| 0 <= j < i ==> !is_sought(#[trigger] windows[j]@, frontmost_pid)
            },
        first_window_record(windows, frontmost_pid, bundle_path) matches Some(record) ==> {
            &&& record.process_id == frontmost_pid
            &&& record.process_path == bundle_path
            &&& record.position.width >= MIN_WINDOW_SIDE
            &&& record.position.height >= MIN_WINDOW_SIDE
        },
    decreases windows.len(),
{
    if windows.len() > 0 {
        let rest = windows.drop_first();
        lemma_record_is_first_sought(rest, frontmost_pid, bundle_path);
        if is_sought(windows[0]@, frontmost_pid) {
            assert(Some(first_window_record(windows, frontmost_pid, bundle_path)->0)
                == window_record(windows[0]@, frontmost_pid, bundle_path));
        } else if first_window_record(rest, frontmost_pid, bundle_path) is Some {
            let record = first_window_record(rest, frontmost_pid, bundle_path)->0;
            let i = choose|i: int|
                {
                    &&& 0 <= i < rest.len()
                    &&& Some(record) == window_record(#[trigger] rest[i]@, frontmost_pid, bundle_path)
                    &&& forall|j: int|
                        0 <= j < i ==> !is_sought(#[trigger] rest[j]@, frontmost_pid)
                };
            assert(windows[i + 1] == rest[i]);
            assert forall|j: int| 0 <= j < i + 1 implies !is_sought(
                #[trigger] windows[j]@,
                frontmost_pid,
            ) by {
                if j > 0 {
                    assert(rest[j - 1] == windows[j]);
                }
            }
        }
    }
}

/// Where the system names no frontmost application, which it tells by a
/// negative process id, the scan gives no record whatever is on screen.
pub proof fn lemma_no_frontmost_application(
    windows: Seq<Vec<DictEntry>>,
    frontmost_pid: i32,
    bundle_path: Seq<char>,
)
    requires
        frontmost_pid < 0,
    ensures
        first_window_record(windows, frontmost_pid, bundle_path) is None,
{
    lemma_record_iff_sought(windows, frontmost_pid, bundle_path);
}

} // verus!
