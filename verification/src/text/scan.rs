//! Trimming, splitting and searching character sequences.

use vstd::prelude::*;

verus! {

/// Whether `c` is white space as Unicode defines it (the property
/// `White_Space`).
pub open spec fn is_whitespace(c: char) -> bool {
    let n = c as u32;
    ||| 0x09 <= n <= 0x0D
    ||| n == 0x20
    ||| n == 0x85
    ||| n == 0xA0
    ||| n == 0x1680
    ||| 0x2000 <= n <= 0x200A
    ||| n == 0x2028
    ||| n == 0x2029
    ||| n == 0x202F
    ||| n == 0x205F
    ||| n == 0x3000
}

/// Tests a character for white space.
pub fn char_is_whitespace(c: char) -> (white: bool)
    ensures
        white == is_whitespace(c),
{
    let n: u32 = c as u32;
    (0x09 <= n && n <= 0x0D) || n == 0x20 || n == 0x85 || n == 0xA0 || n == 0x1680 || (0x2000 <= n
        && n <= 0x200A) || n == 0x2028 || n == 0x2029 || n == 0x202F || n == 0x205F || n == 0x3000
}

/// A set of characters to split at or to trim away.
#[derive(Debug, Clone, Copy, PartialEq, Eq, Structural)]
pub enum Pattern {
    /// One given character.
    Char(char),
    /// One of two given characters.
    Either(char, char),
    /// Any white space character.
    Whitespace,
}

impl Pattern {
    /// Whether `c` belongs to the set.
    pub open spec fn matches(self, c: char) -> bool {
        match self {
            Pattern::Char(wanted) => c == wanted,
            Pattern::Either(first, second) => c == first || c == second,
            Pattern::Whitespace => is_whitespace(c),
        }
    }

    /// Tests a character against the set.
    pub fn is_match(&self, c: char) -> (hit: bool)
        ensures
            hit == self.matches(c),
    {
        match self {
            Pattern::Char(wanted) => c == *wanted,
            Pattern::Either(first, second) => c == *first || c == *second,
            Pattern::Whitespace => char_is_whitespace(c),
        }
    }
}

/// `s` without the characters of `pattern` at its start.
pub open spec fn trim_start_matches(s: Seq<char>, pattern: Pattern) -> Seq<char>
    decreases s.len(),
{
    if s.len() > 0 && pattern.matches(s[0]) {
        trim_start_matches(s.drop_first(), pattern)
    } else {
        s
    }
}

/// `s` without the characters of `pattern` at its end.
pub open spec fn trim_end_matches(s: Seq<char>, pattern: Pattern) -> Seq<char>
    decreases s.len(),
{
    if s.len() > 0 && pattern.matches(s.last()) {
        trim_end_matches(s.drop_last(), pattern)
    } else {
        s
    }
}

/// `s` without the characters of `pattern` at either end.
pub open spec fn trim_matches(s: Seq<char>, pattern: Pattern) -> Seq<char> {
    trim_end_matches(trim_start_matches(s, pattern), pattern)
}

/// `s` without white space at either end.
pub open spec fn trim(s: Seq<char>) -> Seq<char> {
    trim_matches(s, Pattern::Whitespace)
}

/// The pieces of `s` between the characters of `pattern`. Every such
/// character ends one piece and starts the next, so there is always one piece
/// more than there are separators, and pieces may be empty.
pub open spec fn split(s: Seq<char>, pattern: Pattern) -> Seq<Seq<char>>
    decreases s.len(),
{
    if s.len() == 0 {
        seq![Seq::<char>::empty()]
    } else {
        let before = split(s.drop_last(), pattern);
        if pattern.matches(s.last()) {
            before.push(Seq::<char>::empty())
        } else {
            before.update(before.len() - 1, before.last().push(s.last()))
        }
    }
}

/// Whether `needle` stands in `hay` at index `at`.
pub open spec fn occurs_at(hay: Seq<char>, needle: Seq<char>, at: int) -> bool {
    &&& 0 <= at
    &&& at + needle.len() <= hay.len()
    &&& hay.subrange(at, at + needle.len()) == needle
}

/// Whether `needle` stands somewhere in `hay`.
pub open spec fn contains(hay: Seq<char>, needle: Seq<char>) -> bool {
    exists|at: int| occurs_at(hay, needle, at)
}

/// `s` with every occurrence of `from` replaced by `to`, found from left to
/// right without overlap. An empty `from` replaces nothing.
pub open spec fn replace(s: Seq<char>, from: Seq<char>, to: Seq<char>) -> Seq<char>
    decreases s.len(),
{
    if from.len() == 0 || s.len() < from.len() {
        s
    } else if occurs_at(s, from, 0) {
        to + replace(s.skip(from.len() as int), from, to)
    } else {
        seq![s[0]] + replace(s.drop_first(), from, to)
    }
}

/// `s` without `prefix` at its start, if it starts with it.
pub open spec fn strip_prefix(s: Seq<char>, prefix: Seq<char>) -> Option<Seq<char>> {
    if occurs_at(s, prefix, 0) {
        Some(s.skip(prefix.len() as int))
    } else {
        None
    }
}

/// `s` without `suffix` at its end, if it ends with it.
pub open spec fn strip_suffix(s: Seq<char>, suffix: Seq<char>) -> Option<Seq<char>> {
    if occurs_at(s, suffix, s.len() - suffix.len()) {
        Some(s.take(s.len() - suffix.len()))
    } else {
        None
    }
}

/// The index of the last character of `pattern` in `s`, or -1 if there is
/// none.
pub open spec fn last_match(s: Seq<char>, pattern: Pattern) -> int
    decreases s.len(),
{
    if s.len() == 0 {
        -1
    } else if pattern.matches(s.last()) {
        s.len() - 1
    } else {
        last_match(s.drop_last(), pattern)
    }
}

/// The last piece that is not empty, or the empty text if there is none.
pub open spec fn last_non_empty(pieces: Seq<Seq<char>>) -> Seq<char>
    decreases pieces.len(),
{
    if pieces.len() == 0 {
        Seq::<char>::empty()
    } else if pieces.last().len() > 0 {
        pieces.last()
    } else {
        last_non_empty(pieces.drop_last())
    }
}

/// The view of a list of texts: the list of their character sequences.
pub open spec fn texts(pieces: Seq<Vec<char>>) -> Seq<Seq<char>> {
    pieces.map_values(|piece: Vec<char>| piece@)
}

/// Copies the characters from index `from` up to, not including, index `to`.
pub(crate) fn copy_range(s: &Vec<char>, from: usize, to: usize) -> (part: Vec<char>)
    requires
        from <= to <= s.len(),
    ensures
        part@ == s@.subrange(from as int, to as int),
{
    let mut part: Vec<char> = Vec::new();
    let mut i: usize = from;
    while i < to
        invariant
            from <= i <= to <= s.len(),
            part@ == s@.subrange(from as int, i as int),
        decreases to - i,
    {
        part.push(s[i]);
        i += 1;
    }
    part
}

/// Removes the characters of `pattern` from both ends.
pub fn trim_chars(s: &Vec<char>, pattern: Pattern) -> (trimmed: Vec<char>)
    ensures
        trimmed@ == trim_matches(s@, pattern),
{
    let mut from: usize = 0;
    assert(s@.skip(0) == s@);
    while from < s.len() && pattern.is_match(s[from])
        invariant
            from <= s.len(),
            trim_start_matches(s@, pattern) == trim_start_matches(s@.skip(from as int), pattern),
        decreases s.len() - from,
    {
        assert(s@.skip(from as int).drop_first() == s@.skip(from + 1));
        from += 1;
    }
    assert(trim_start_matches(s@, pattern) == s@.skip(from as int));
    let mut to: usize = s.len();
    assert(s@.subrange(from as int, to as int) == s@.skip(from as int));
    while to > from && pattern.is_match(s[to - 1])
        invariant
            from <= to <= s.len(),
            trim_matches(s@, pattern) == trim_end_matches(
                s@.subrange(from as int, to as int),
                pattern,
            ),
        decreases to - from,
    {
        assert(s@.subrange(from as int, to as int).drop_last() == s@.subrange(
            from as int,
            to - 1,
        ));
        to -= 1;
    }
    copy_range(s, from, to)
}

/// Cuts the text at every character of `pattern`.
pub fn split_chars(s: &Vec<char>, pattern: Pattern) -> (pieces: Vec<Vec<char>>)
    ensures
        texts(pieces@) == split(s@, pattern),
{
    let mut pieces: Vec<Vec<char>> = Vec::new();
    let mut current: Vec<char> = Vec::new();
    let mut i: usize = 0;
    assert(s@.take(0) == Seq::<char>::empty());
    assert(texts(pieces@).push(current@) == seq![Seq::<char>::empty()]);
    while i < s.len()
        invariant
            i <= s.len(),
            texts(pieces@).push(current@) == split(s@.take(i as int), pattern),
        decreases s.len() - i,
    {
        let ghost before = split(s@.take(i as int), pattern);
        assert(s@.take(i + 1).drop_last() == s@.take(i as int));
        assert(s@.take(i + 1).last() == s@[i as int]);
        if pattern.is_match(s[i]) {
            let ghost old_pieces = pieces@;
            pieces.push(current);
            current = Vec::new();
            assert(texts(pieces@) == texts(old_pieces).push(pieces@.last()@));
            assert(texts(pieces@).push(current@) == before.push(Seq::<char>::empty()));
        } else {
            current.push(s[i]);
            assert(texts(pieces@).push(current@) == before.update(
                before.len() - 1,
                before.last().push(s@[i as int]),
            ));
        }
        i += 1;
    }
    assert(s@.take(s.len() as int) == s@);
    let ghost old_pieces = pieces@;
    pieces.push(current);
    assert(texts(pieces@) == texts(old_pieces).push(pieces@.last()@));
    pieces
}

/// Whether `needle` stands in `hay` at index `at`.
pub fn found_at(hay: &Vec<char>, needle: &Vec<char>, at: usize) -> (found: bool)
    ensures
        found == occurs_at(hay@, needle@, at as int),
{
    if at > hay.len() || needle.len() > hay.len() - at {
        return false;
    }
    let mut k: usize = 0;
    while k < needle.len()
        invariant
            k <= needle.len(),
            at + needle.len() <= hay.len(),
            hay@.subrange(at as int, at + k) == needle@.take(k as int),
        decreases needle.len() - k,
    {
        if hay[at + k] != needle[k] {
            assert(hay@.subrange(at as int, at + needle.len())[k as int] != needle@[k as int]);
            return false;
        }
        assert(hay@.subrange(at as int, at + k + 1) == hay@.subrange(at as int, at + k).push(
            hay@[at + k],
        ));
        assert(needle@.take(k + 1) == needle@.take(k as int).push(needle@[k as int]));
        k += 1;
    }
    assert(needle@.take(needle.len() as int) == needle@);
    true
}

/// Whether `needle` stands somewhere in `hay`.
pub fn contains_chars(hay: &Vec<char>, needle: &Vec<char>) -> (found: bool)
    ensures
        found == contains(hay@, needle@),
{
    if needle.len() > hay.len() {
        return false;
    }
    let last: usize = hay.len() - needle.len();
    let mut at: usize = 0;
    loop
        invariant
            at <= last,
            last == hay.len() - needle.len(),
            forall|j: int| 0 <= j < at ==> !occurs_at(hay@, needle@, j),
        decreases last - at,
    {
        if found_at(hay, needle, at) {
            return true;
        }
        if at == last {
            return false;
        }
        at += 1;
    }
}

/// Replaces every occurrence of `from` by `to`.
pub fn replace_chars(s: &Vec<char>, from: &Vec<char>, to: &Vec<char>) -> (replaced: Vec<char>)
    ensures
        replaced@ == replace(s@, from@, to@),
{
    let mut replaced: Vec<char> = Vec::new();
    let mut i: usize = 0;
    assert(s@.skip(0) == s@);
    while i < s.len()
        invariant
            i <= s.len(),
            replaced@ + replace(s@.skip(i as int), from@, to@) == replace(s@, from@, to@),
        decreases s.len() - i,
    {
        let ghost rest = s@.skip(i as int);
        if from.len() == 0 || s.len() - i < from.len() {
            assert(rest.drop_first() == s@.skip(i + 1));
            proof {
                if from.len() != 0 {
                    lemma_replace_short(rest, from@, to@);
                    lemma_replace_short(s@.skip(i + 1), from@, to@);
                }
            }
            assert(replace(rest, from@, to@) == seq![s@[i as int]] + replace(
                s@.skip(i + 1),
                from@,
                to@,
            ));
            replaced.push(s[i]);
            i += 1;
        } else if found_at(s, from, i) {
            assert(rest.subrange(0, from.len() as int) == s@.subrange(
                i as int,
                i + from.len(),
            ));
            assert(rest.skip(from.len() as int) == s@.skip(i + from.len()));
            let mut k: usize = 0;
            let ghost start = replaced@;
            while k < to.len()
                invariant
                    k <= to.len(),
                    replaced@ == start + to@.take(k as int),
                decreases to.len() - k,
            {
                replaced.push(to[k]);
                assert(to@.take(k + 1) == to@.take(k as int).push(to@[k as int]));
                k += 1;
            }
            assert(to@.take(to.len() as int) == to@);
            i += from.len();
        } else {
            assert(rest.subrange(0, from.len() as int) == s@.subrange(
                i as int,
                i + from.len(),
            ));
            assert(rest.drop_first() == s@.skip(i + 1));
            replaced.push(s[i]);
            i += 1;
        }
    }
    assert(s@.skip(s.len() as int).len() == 0);
    replaced
}

/// A text shorter than what is looked for is left as it is.
proof fn lemma_replace_short(s: Seq<char>, from: Seq<char>, to: Seq<char>)
    requires
        s.len() < from.len(),
    ensures
        replace(s, from, to) == s,
{
}

/// Removes `prefix` from the start, if it is there.
pub fn strip_prefix_chars(s: &Vec<char>, prefix: &Vec<char>) -> (rest: Option<Vec<char>>)
    ensures
        rest is Some <==> strip_prefix(s@, prefix@) is Some,
        rest matches Some(r) ==> r@ == strip_prefix(s@, prefix@)->0,
{
    if prefix.len() <= s.len() && found_at(s, prefix, 0) {
        let rest = copy_range(s, prefix.len(), s.len());
        assert(s@.skip(prefix.len() as int) == s@.subrange(prefix.len() as int, s.len() as int));
        Some(rest)
    } else {
        None
    }
}

/// Removes `suffix` from the end, if it is there.
pub fn strip_suffix_chars(s: &Vec<char>, suffix: &Vec<char>) -> (rest: Option<Vec<char>>)
    ensures
        rest is Some <==> strip_suffix(s@, suffix@) is Some,
        rest matches Some(r) ==> r@ == strip_suffix(s@, suffix@)->0,
{
    if suffix.len() <= s.len() && found_at(s, suffix, s.len() - suffix.len()) {
        let rest = copy_range(s, 0, s.len() - suffix.len());
        assert(s@.take(s.len() - suffix.len()) == s@.subrange(0, s.len() - suffix.len()));
        Some(rest)
    } else {
        None
    }
}

/// Picks the last piece that is not empty.
pub fn last_non_empty_piece(pieces: &Vec<Vec<char>>) -> (piece: Vec<char>)
    ensures
        piece@ == last_non_empty(texts(pieces@)),
{
    let mut n: usize = pieces.len();
    assert(texts(pieces@).take(n as int) == texts(pieces@));
    while n > 0
        invariant
            n <= pieces.len(),
            last_non_empty(texts(pieces@)) == last_non_empty(texts(pieces@).take(n as int)),
        decreases n,
    {
        let ghost head = texts(pieces@).take(n as int);
        assert(head.last() == pieces@[n - 1]@);
        if pieces[n - 1].len() > 0 {
            return copy_range(&pieces[n - 1], 0, pieces[n - 1].len());
        }
        assert(head.drop_last() == texts(pieces@).take(n - 1));
        n -= 1;
    }
    Vec::new()
}

/// Finds the last character of `pattern`: its index, or nothing if there
/// is none.
pub fn last_match_of(s: &Vec<char>, pattern: Pattern) -> (index: Option<usize>)
    ensures
        index matches Some(i) ==> last_match(s@, pattern) == i && i < s.len(),
        index is None ==> last_match(s@, pattern) == -1,
{
    let mut n: usize = s.len();
    assert(s@.take(n as int) == s@);
    while n > 0
        invariant
            n <= s.len(),
            last_match(s@, pattern) == last_match(s@.take(n as int), pattern),
        decreases n,
    {
        assert(s@.take(n as int).last() == s@[n - 1]);
        assert(s@.take(n as int).drop_last() == s@.take(n - 1));
        if pattern.is_match(s[n - 1]) {
            return Some(n - 1);
        }
        n -= 1;
    }
    None
}

} // verus!
