//! Reading what the session bus helpers print: plain text, not structured
//! data, so it is scanned for what can be recognised.

use crate::text::chars::{chars_of_utf8, from_chars, to_chars, utf8_text};
use crate::text::number::{parse_u32, parse_u32_chars};
use crate::text::scan::{
    contains, contains_chars, last_non_empty, last_non_empty_piece, replace, replace_chars, split,
    split_chars, strip_prefix, strip_prefix_chars, strip_suffix, strip_suffix_chars, texts, trim,
    trim_chars, Pattern,
};
use vstd::prelude::*;

verus! {

/// The structured text inside a session bus reply. The reply wraps it as
/// `(<'..'>,)` or as `('..',)`: white space around the reply is dropped, the
/// wrapper is taken off where both of its ends are there, and every quote
/// that the wrapper escaped with a backslash is restored.
pub open spec fn gnome_payload(reply: Seq<char>) -> Seq<char> {
    let trimmed = trim(reply);
    let opened = match strip_prefix(trimmed, "(<'"@) {
        Some(inner) => Some(inner),
        None => strip_prefix(trimmed, "('"@),
    };
    let inner = match opened {
        Some(inner) => match strip_suffix(inner, "'>,)"@) {
            Some(text) => Some(text),
            None => strip_suffix(inner, "',)"@),
        },
        None => None,
    };
    let text = match inner {
        Some(text) => text,
        None => trimmed,
    };
    replace(text, "\\'"@, "'"@)
}

/// Takes the wrapper off a session bus reply. Nothing comes back where the
/// reply is not well-formed UTF-8.
pub fn gnome_json(output: &[u8]) -> (json: Option<String>)
    ensures
        json is Some <==> utf8_text(output@) is Some,
        json matches Some(text) ==> text@ == gnome_payload(utf8_text(output@)->0),
{
    let reply = match chars_of_utf8(output) {
        Some(reply) => reply,
        None => { return None; },
    };
    let trimmed = trim_chars(&reply, Pattern::Whitespace);
    let opened = match strip_prefix_chars(&trimmed, &to_chars("(<'")) {
        Some(inner) => Some(inner),
        None => strip_prefix_chars(&trimmed, &to_chars("('")),
    };
    let inner = match opened {
        Some(inner) => match strip_suffix_chars(&inner, &to_chars("'>,)")) {
            Some(text) => Some(text),
            None => strip_suffix_chars(&inner, &to_chars("',)")),
        },
        None => None,
    };
    let text = match inner {
        Some(text) => text,
        None => trimmed,
    };
    let restored = replace_chars(&text, &to_chars("\\'"), &to_chars("'"));
    Some(from_chars(&restored))
}

/// What stands between the first and the second double quote of a line, if
/// the line has a double quote and that text is not empty.
pub open spec fn quoted_value(line: Seq<char>) -> Option<Seq<char>> {
    let parts = split(line, Pattern::Char('"'));
    if parts.len() > 1 && parts[1].len() > 0 {
        Some(parts[1])
    } else {
        None
    }
}

/// The quoted value of a line that holds one of two markers.
pub open spec fn marked_text(line: Seq<char>, marker: Seq<char>, other: Seq<char>) -> Option<
    Seq<char>,
> {
    if contains(line, marker) || contains(line, other) {
        quoted_value(line)
    } else {
        None
    }
}

/// The number at the end of a line that holds the marker `"pid"`: its last
/// word, read as an unsigned 32-bit decimal.
pub open spec fn marked_number(line: Seq<char>) -> Option<u32> {
    if contains(line, "\"pid\""@) {
        parse_u32(last_non_empty(split(line, Pattern::Whitespace)))
    } else {
        None
    }
}

/// The value of the first line that yields one, or the empty text. Lines are
/// looked at without the white space around them.
pub open spec fn first_marked_text(
    lines: Seq<Seq<char>>,
    marker: Seq<char>,
    other: Seq<char>,
) -> Seq<char>
    decreases lines.len(),
{
    if lines.len() == 0 {
        Seq::<char>::empty()
    } else {
        match marked_text(trim(lines[0]), marker, other) {
            Some(value) => value,
            None => first_marked_text(lines.drop_first(), marker, other),
        }
    }
}

/// The number of the first line that yields one, or 0.
pub open spec fn first_marked_number(lines: Seq<Seq<char>>) -> u32
    decreases lines.len(),
{
    if lines.len() == 0 {
        0
    } else {
        match marked_number(trim(lines[0])) {
            Some(number) => number,
            None => first_marked_number(lines.drop_first()),
        }
    }
}

/// What a scan of a window's property listing found.
#[derive(Debug)]
pub struct KwinProperties {
    pub title: String,
    pub app_name: String,
    pub pid: u32,
}

/// The title, the application name and the process id that a property
/// listing holds. The listing is read line by line, a line being what stands
/// between two line feeds: the title is the quoted value of the first line
/// that has one and mentions `caption` or `"title"`, the name that of the
/// first such line that mentions `resourceClass` or `resourceName`, the
/// process id the number of the first line that mentions `"pid"` and ends
/// in one. What is not found is empty or 0.
pub open spec fn kwin_properties(listing: Seq<char>) -> (Seq<char>, Seq<char>, u32) {
    let lines = split(listing, Pattern::Char('\n'));
    (
        first_marked_text(lines, "caption"@, "\"title\""@),
        first_marked_text(lines, "resourceClass"@, "resourceName"@),
        first_marked_number(lines),
    )
}

/// Reads the quoted value of a line that holds one of two markers.
fn marked_text_of(line: &Vec<char>, marker: &Vec<char>, other: &Vec<char>) -> (value: Option<
    Vec<char>,
>)
    ensures
        value is Some <==> marked_text(line@, marker@, other@) is Some,
        value matches Some(v) ==> v@ == marked_text(line@, marker@, other@)->0,
{
    if !(contains_chars(line, marker) || contains_chars(line, other)) {
        return None;
    }
    let mut parts = split_chars(line, Pattern::Char('"'));
    assert(texts(parts@).len() == parts@.len());
    if parts.len() > 1 && parts[1].len() > 0 {
        assert(texts(parts@)[1] == parts@[1]@);
        Some(parts.swap_remove(1))
    } else {
        if parts.len() > 1 {
            assert(texts(parts@)[1] == parts@[1]@);
        }
        None
    }
}

/// Reads the number at the end of a line that holds the marker `"pid"`.
fn marked_number_of(line: &Vec<char>) -> (number: Option<u32>)
    ensures
        number == marked_number(line@),
{
    if !contains_chars(line, &to_chars("\"pid\"")) {
        return None;
    }
    let words = split_chars(line, Pattern::Whitespace);
    let last = last_non_empty_piece(&words);
    parse_u32_chars(&last)
}

/// Finds the first line with a value for one of two markers.
fn first_marked_text_of(lines: &Vec<Vec<char>>, marker: &Vec<char>, other: &Vec<char>) -> (value:
    Vec<char>)
    ensures
        value@ == first_marked_text(texts(lines@), marker@, other@),
{
    let mut i: usize = 0;
    assert(texts(lines@).skip(0) == texts(lines@));
    while i < lines.len()
        invariant
            i <= lines.len(),
            first_marked_text(texts(lines@), marker@, other@) == first_marked_text(
                texts(lines@).skip(i as int),
                marker@,
                other@,
            ),
        decreases lines.len() - i,
    {
        let ghost rest = texts(lines@).skip(i as int);
        assert(rest[0] == lines@[i as int]@);
        assert(rest.drop_first() == texts(lines@).skip(i + 1));
        let line = trim_chars(&lines[i], Pattern::Whitespace);
        match marked_text_of(&line, marker, other) {
            Some(value) => { return value; },
            None => {},
        }
        i += 1;
    }
    Vec::new()
}

/// Finds the first line with a process id.
fn first_marked_number_of(lines: &Vec<Vec<char>>) -> (number: u32)
    ensures
        number == first_marked_number(texts(lines@)),
{
    let mut i: usize = 0;
    assert(texts(lines@).skip(0) == texts(lines@));
    while i < lines.len()
        invariant
            i <= lines.len(),
            first_marked_number(texts(lines@)) == first_marked_number(
                texts(lines@).skip(i as int),
            ),
        decreases lines.len() - i,
    {
        let ghost rest = texts(lines@).skip(i as int);
        assert(rest[0] == lines@[i as int]@);
        assert(rest.drop_first() == texts(lines@).skip(i + 1));
        let line = trim_chars(&lines[i], Pattern::Whitespace);
        match marked_number_of(&line) {
            Some(number) => { return number; },
            None => {},
        }
        i += 1;
    }
    0
}

/// Scans a window's property listing for title, application name and
/// process id.
pub fn parse_kwin_properties(listing: &Vec<char>) -> (found: KwinProperties)
    ensures
        (found.title@, found.app_name@, found.pid) == kwin_properties(listing@),
{
    let lines = split_chars(listing, Pattern::Char('\n'));
    let title = first_marked_text_of(&lines, &to_chars("caption"), &to_chars("\"title\""));
    let app_name = first_marked_text_of(
        &lines,
        &to_chars("resourceClass"),
        &to_chars("resourceName"),
    );
    let pid = first_marked_number_of(&lines);
    KwinProperties { title: from_chars(&title), app_name: from_chars(&app_name), pid }
}

/// The handle of the active window in a window manager's reply: the reply
/// without the white space around it, if it is well-formed UTF-8 and
/// anything is left.
pub open spec fn kwin_handle(output: Seq<u8>) -> Option<Seq<char>> {
    match utf8_text(output) {
        Some(reply) => if trim(reply).len() > 0 {
            Some(trim(reply))
        } else {
            None
        },
        None => None,
    }
}

/// Reads the handle of the active window from a window manager's reply.
pub fn kwin_window_handle(output: &[u8]) -> (handle: Option<String>)
    ensures
        handle is Some <==> kwin_handle(output@) is Some,
        handle matches Some(h) ==> h@ == kwin_handle(output@)->0,
{
    let reply = match chars_of_utf8(output) {
        Some(reply) => reply,
        None => { return None; },
    };
    let trimmed = trim_chars(&reply, Pattern::Whitespace);
    if trimmed.len() == 0 {
        None
    } else {
        Some(from_chars(&trimmed))
    }
}

/// The object path under which a window's properties are found: a slash,
/// then the handle with every underscore turned into a slash.
pub open spec fn kwin_path(handle: Seq<char>) -> Seq<char> {
    seq!['/'] + replace(handle, seq!['_'], seq!['/'])
}

/// Makes the object path of a window from its handle.
pub fn kwin_object_path(handle: &str) -> (path: String)
    ensures
        path@ == kwin_path(handle@),
{
    let mut underscore: Vec<char> = Vec::new();
    underscore.push('_');
    let mut slash: Vec<char> = Vec::new();
    slash.push('/');
    let replaced = replace_chars(&to_chars(handle), &underscore, &slash);
    let mut path: Vec<char> = Vec::new();
    path.push('/');
    let mut i: usize = 0;
    while i < replaced.len()
        invariant
            i <= replaced.len(),
            path@ == seq!['/'] + replaced@.take(i as int),
        decreases replaced.len() - i,
    {
        path.push(replaced[i]);
        assert(replaced@.take(i + 1) == replaced@.take(i as int).push(replaced@[i as int]));
        i += 1;
    }
    assert(replaced@.take(replaced.len() as int) == replaced@);
    assert(underscore@ == seq!['_']);
    assert(slash@ == seq!['/']);
    from_chars(&path)
}

} // verus!
