//! Moving between strings, characters and encoded bytes.

use vstd::prelude::*;
use vstd::utf8::{decode_utf8, valid_utf8};

verus! {

/// `String::push` of the standard library: the character is appended to the
/// end of the string and nothing else changes.
pub assume_specification[ std::string::String::push ](text: &mut std::string::String, c: char)
    ensures
        final(text)@ == old(text)@.push(c),
;

/// Whether a UTF-16 code unit is a surrogate: one half of a pair that
/// encodes a character beyond the first 65536.
pub open spec fn is_surrogate(unit: u16) -> bool {
    0xD800 <= unit <= 0xDFFF
}

/// Whether two UTF-16 code units are a pair: a leading surrogate and a
/// trailing one.
pub open spec fn is_surrogate_pair(first: u16, second: u16) -> bool {
    0xD800 <= first <= 0xDBFF && 0xDC00 <= second <= 0xDFFF
}

/// The text that UTF-16 code units encode, with the replacement character
/// U+FFFD in place of every surrogate that is not part of a pair.
pub open spec fn utf16_lossy_text(units: Seq<u16>) -> Seq<char>
    decreases units.len(),
{
    if units.len() == 0 {
        Seq::<char>::empty()
    } else if !is_surrogate(units[0]) {
        seq![units[0] as char] + utf16_lossy_text(units.skip(1))
    } else if units.len() >= 2 && is_surrogate_pair(units[0], units[1]) {
        seq![(0x10000 + (units[0] - 0xD800) * 0x400 + (units[1] - 0xDC00)) as char]
            + utf16_lossy_text(units.skip(2))
    } else {
        seq!['\u{FFFD}'] + utf16_lossy_text(units.skip(1))
    }
}

/// Calls `String::from_utf16_lossy`. The standard library decodes the code
/// units from the first to the last: a unit that is no surrogate is the
/// character of that number, a leading surrogate with a trailing one after
/// it is the character that the pair encodes, and every other surrogate
/// becomes U+FFFD by itself.
#[verifier::external_body]
pub(crate) fn decode_utf16_lossy(units: &[u16]) -> (text: String)
    ensures
        text@ == utf16_lossy_text(units@),
{
    String::from_utf16_lossy(units)
}

/// Calls `std::str::from_utf8`. The standard library accepts the bytes if and
/// only if they are well-formed UTF-8, and then hands back the text that they
/// encode.
#[verifier::external_body]
pub(crate) fn decode_utf8_strict(bytes: &[u8]) -> (text: Option<String>)
    ensures
        text is Some <==> valid_utf8(bytes@),
        text matches Some(s) ==> s@ == decode_utf8(bytes@),
{
    match std::str::from_utf8(bytes) {
        Ok(s) => Some(s.to_owned()),
        Err(_) => None,
    }
}

/// The text that the bytes encode, if they are well-formed UTF-8.
pub open spec fn utf8_text(bytes: Seq<u8>) -> Option<Seq<char>> {
    if valid_utf8(bytes) {
        Some(decode_utf8(bytes))
    } else {
        None
    }
}

/// The characters of a string, in order.
pub fn to_chars(text: &str) -> (chars: Vec<char>)
    ensures
        chars@ == text@,
{
    let mut chars: Vec<char> = Vec::new();
    for c in it: text.chars()
        invariant
            chars@ == it.seq().take(it.index() as int),
            it.seq() == text@,
    {
        chars.push(c);
    }
    chars
}

/// The string made of the given characters, in order.
pub fn from_chars(chars: &Vec<char>) -> (text: String)
    ensures
        text@ == chars@,
{
    let mut text = String::new();
    let mut i: usize = 0;
    while i < chars.len()
        invariant
            i <= chars.len(),
            text@ == chars@.take(i as int),
        decreases chars.len() - i,
    {
        text.push(chars[i]);
        i += 1;
    }
    text
}

/// The characters that the bytes encode, or nothing if the bytes are not
/// well-formed UTF-8.
pub fn chars_of_utf8(bytes: &[u8]) -> (chars: Option<Vec<char>>)
    ensures
        chars is Some <==> utf8_text(bytes@) is Some,
        chars matches Some(c) ==> c@ == utf8_text(bytes@)->0,
{
    match decode_utf8_strict(bytes) {
        Some(text) => Some(to_chars(text.as_str())),
        None => None,
    }
}

/// Whether two strings hold the same characters.
pub fn same_text(a: &str, b: &str) -> (same: bool)
    ensures
        same == (a@ == b@),
{
    let x = to_chars(a);
    let y = to_chars(b);
    same_chars(&x, &y)
}

/// Whether two character sequences are equal.
pub fn same_chars(a: &Vec<char>, b: &Vec<char>) -> (same: bool)
    ensures
        same == (a@ == b@),
{
    if a.len() != b.len() {
        return false;
    }
    let mut i: usize = 0;
    while i < a.len()
        invariant
            i <= a.len(),
            a.len() == b.len(),
            a@.take(i as int) == b@.take(i as int),
        decreases a.len() - i,
    {
        if a[i] != b[i] {
            return false;
        }
        assert(a@.take(i + 1) == a@.take(i as int).push(a@[i as int]));
        assert(b@.take(i + 1) == b@.take(i as int).push(b@[i as int]));
        i += 1;
    }
    assert(a@.take(a.len() as int) == a@);
    assert(b@.take(b.len() as int) == b@);
    true
}

} // verus!
