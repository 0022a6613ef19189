//! Reading and building text.
//!
//! Everything here is stated over the characters of the text, which is what a
//! column of the database, a line of a command's output and a piece of a path
//! all are once they reach this library.

pub mod laws;

use vstd::prelude::*;

verus! {

/// Whether a character counts as white space: Unicode's `White_Space`
/// property.
pub open spec fn space(c: char) -> bool {
    ||| '\u{9}' <= c <= '\u{d}'
    ||| c == ' '
    ||| c == '\u{85}'
    ||| c == '\u{a0}'
    ||| c == '\u{1680}'
    ||| '\u{2000}' <= c <= '\u{200a}'
    ||| c == '\u{2028}'
    ||| c == '\u{2029}'
    ||| c == '\u{202f}'
    ||| c == '\u{205f}'
    ||| c == '\u{3000}'
}

pub fn is_space(c: char) -> (found: bool)
    ensures
        found == space(c),
{
    ('\u{9}' <= c && c <= '\u{d}') || c == ' ' || c == '\u{85}' || c == '\u{a0}' || c == '\u{1680}'
        || ('\u{2000}' <= c && c <= '\u{200a}') || c == '\u{2028}' || c == '\u{2029}' || c
        == '\u{202f}' || c == '\u{205f}' || c == '\u{3000}'
}

/// The text without the white space it begins with.
pub open spec fn trim_start(s: Seq<char>) -> Seq<char>
    decreases s.len(),
{
    if s.len() > 0 && space(s[0]) {
        trim_start(s.drop_first())
    } else {
        s
    }
}

/// The text without the white space it ends with.
pub open spec fn trim_end(s: Seq<char>) -> Seq<char>
    decreases s.len(),
{
    if s.len() > 0 && space(s.last()) {
        trim_end(s.drop_last())
    } else {
        s
    }
}

/// The text without the white space around it.
pub open spec fn trimmed(s: Seq<char>) -> Seq<char> {
    trim_end(trim_start(s))
}

/// The lower-case form of an ASCII letter; any other character as it is.
pub open spec fn lower(c: char) -> char {
    if 'A' <= c <= 'Z' {
        ((c as u8) + 32) as char
    } else {
        c
    }
}

/// The text with its ASCII letters in lower case.
pub open spec fn lowered(s: Seq<char>) -> Seq<char> {
    s.map_values(|c: char| lower(c))
}

/// Where a text is broken into pieces.
#[derive(Debug, Clone, Copy, PartialEq, Eq, Structural)]
pub enum Separator {
    Comma,
    /// Either slash: a path that travels between machines uses both.
    Slash,
    LineFeed,
    Space,
}

impl Separator {
    pub open spec fn at(self, c: char) -> bool {
        match self {
            Separator::Comma => c == ',',
            Separator::Slash => c == '/' || c == '\\',
            Separator::LineFeed => c == '\n',
            Separator::Space => space(c),
        }
    }

    pub fn is_at(self, c: char) -> (found: bool)
        ensures
            found == self.at(c),
    {
        match self {
            Separator::Comma => c == ',',
            Separator::Slash => c == '/' || c == '\\',
            Separator::LineFeed => c == '\n',
            Separator::Space => is_space(c),
        }
    }
}

/// The position of the first separator at or after `from`; the length of the
/// text where there is none.
pub open spec fn next_break(s: Seq<char>, separator: Separator, from: int) -> int
    decreases s.len() - from,
{
    if from >= s.len() || separator.at(s[from]) {
        from
    } else {
        next_break(s, separator, from + 1)
    }
}

/// The pieces of the text from `start` on, the empty ones too.
pub open spec fn pieces_from(s: Seq<char>, separator: Separator, start: int) -> Seq<Seq<char>>
    decreases s.len() - start,
    when 0 <= start <= s.len()
    via pieces_from_ends
{
    let end = next_break(s, separator, start);
    if end >= s.len() {
        seq![s.subrange(start, s.len() as int)]
    } else {
        seq![s.subrange(start, end)] + pieces_from(s, separator, end + 1)
    }
}

#[via_fn]
proof fn pieces_from_ends(s: Seq<char>, separator: Separator, start: int) {
    next_break_is_ahead(s, separator, start);
}

/// The pieces of a text between its separators, the empty ones too.
pub open spec fn pieces(s: Seq<char>, separator: Separator) -> Seq<Seq<char>> {
    pieces_from(s, separator, 0)
}

/// The words of a text: what stands between its white space.
pub open spec fn words(s: Seq<char>) -> Seq<Seq<char>> {
    pieces(s, Separator::Space).filter(|piece: Seq<char>| piece.len() > 0)
}

/// A line without the carriage return that came before its line feed.
pub open spec fn without_return(line: Seq<char>) -> Seq<char> {
    if line.len() > 0 && line.last() == '\r' {
        line.drop_last()
    } else {
        line
    }
}

/// The lines of the text from `start` on. A line feed ends a line, with or
/// without a carriage return before it; the last line needs none.
pub open spec fn lines_from(s: Seq<char>, start: int) -> Seq<Seq<char>>
    decreases s.len() - start,
    when 0 <= start <= s.len()
    via lines_from_ends
{
    let end = next_break(s, Separator::LineFeed, start);
    if start >= s.len() {
        Seq::empty()
    } else if end >= s.len() {
        seq![s.subrange(start, s.len() as int)]
    } else {
        seq![without_return(s.subrange(start, end))] + lines_from(s, end + 1)
    }
}

#[via_fn]
proof fn lines_from_ends(s: Seq<char>, start: int) {
    next_break_is_ahead(s, Separator::LineFeed, start);
}

/// The lines of a text.
pub open spec fn lines(s: Seq<char>) -> Seq<Seq<char>> {
    lines_from(s, 0)
}

/// Whether `needle` stands in the text at `at`.
pub open spec fn stands_at(s: Seq<char>, needle: Seq<char>, at: int) -> bool {
    at + needle.len() <= s.len() && s.subrange(at, at + needle.len()) == needle
}

/// Where `needle` first stands in the text, at or after `from`.
pub open spec fn found_from(s: Seq<char>, needle: Seq<char>, from: int) -> Option<int>
    decreases s.len() + 1 - from,
{
    if from + needle.len() > s.len() {
        None
    } else if stands_at(s, needle, from) {
        Some(from)
    } else {
        found_from(s, needle, from + 1)
    }
}

/// Where `needle` first stands in the text.
pub open spec fn found(s: Seq<char>, needle: Seq<char>) -> Option<int> {
    found_from(s, needle, 0)
}

/// The texts one after another, with `between` between them.
pub open spec fn joined(parts: Seq<Seq<char>>, between: Seq<char>) -> Seq<char>
    decreases parts.len(),
{
    if parts.len() == 0 {
        Seq::empty()
    } else if parts.len() == 1 {
        parts[0]
    } else {
        joined(parts.drop_last(), between) + between + parts.last()
    }
}

/// The character of a decimal digit.
pub open spec fn digit(n: nat) -> char {
    (48 + n) as char
}

/// A number in decimal, without leading zeros.
pub open spec fn decimal(n: nat) -> Seq<char>
    decreases n,
{
    if n < 10 {
        seq![digit(n)]
    } else {
        decimal(n / 10).push(digit(n % 10))
    }
}

/// Whether every character is a decimal digit.
pub open spec fn all_digits(s: Seq<char>) -> bool {
    forall|i: int| 0 <= i < s.len() ==> '0' <= #[trigger] s[i] <= '9'
}

/// The number that digits stand for.
pub open spec fn value_of(digits: Seq<char>) -> nat
    decreases digits.len(),
{
    if digits.len() == 0 {
        0
    } else {
        (value_of(digits.drop_last()) * 10 + (digits.last() as int - 48)) as nat
    }
}

/// The digits of a number that may be written with a plus sign.
pub open spec fn unsigned(s: Seq<char>) -> Seq<char> {
    if s.len() > 0 && s[0] == '+' {
        s.drop_first()
    } else {
        s
    }
}

/// The number a text stands for, if it is one and fits in 32 bits.
pub open spec fn number(s: Seq<char>) -> Option<u32> {
    let digits = unsigned(s);
    if digits.len() > 0 && all_digits(digits) && value_of(digits) <= u32::MAX {
        Some(value_of(digits) as u32)
    } else {
        None
    }
}

/// Whether one text comes before another, character by character.
pub open spec fn before(a: Seq<char>, b: Seq<char>) -> bool
    decreases a.len(),
{
    if b.len() == 0 {
        false
    } else if a.len() == 0 {
        true
    } else if a[0] != b[0] {
        a[0] < b[0]
    } else {
        before(a.drop_first(), b.drop_first())
    }
}

/// What strings hold.
pub open spec fn texts(strings: Seq<String>) -> Seq<Seq<char>> {
    strings.map_values(|string: String| string@)
}

/// What string slices hold.
pub open spec fn slices(strings: Seq<&str>) -> Seq<Seq<char>> {
    strings.map_values(|string: &str| string@)
}

/// What an optional string holds.
pub open spec fn optional(string: Option<String>) -> Option<Seq<char>> {
    match string {
        Some(string) => Some(string@),
        None => None,
    }
}

/// What an optional string slice holds.
pub open spec fn optional_slice(string: Option<&str>) -> Option<Seq<char>> {
    match string {
        Some(string) => Some(string@),
        None => None,
    }
}

proof fn next_break_is_ahead(s: Seq<char>, separator: Separator, from: int)
    ensures
        from <= next_break(s, separator, from),
        from <= s.len() ==> next_break(s, separator, from) <= s.len(),
    decreases s.len() - from,
{
    if from < s.len() && !separator.at(s[from]) {
        next_break_is_ahead(s, separator, from + 1);
    }
}

/// The characters of a text.
pub fn chars_of(text: &str) -> (chars: Vec<char>)
    ensures
        chars@ == text@,
{
    let mut chars: Vec<char> = Vec::new();
    for c in walk: text.chars()
        invariant
            walk.seq() == text@,
            chars@ == text@.take(walk.index()),
    {
        chars.push(c);
    }
    chars
}

/// Whether two texts are the same.
pub fn same(a: &str, b: &str) -> (equal: bool)
    ensures
        equal == (a@ == b@),
{
    a.to_owned() == b.to_owned()
}

/// Whether an optional text is there and is the one named.
pub fn same_as(a: Option<&str>, b: &str) -> (equal: bool)
    ensures
        equal == (optional_slice(a) == Some(b@)),
{
    match a {
        Some(a) => same(a, b),
        None => false,
    }
}

/// A copy of an optional text.
pub fn copied(text: &Option<String>) -> (copy: Option<String>)
    ensures
        optional(copy) == optional(*text),
{
    match text {
        Some(text) => Some(text.clone()),
        None => None,
    }
}

/// An optional text as a string of its own.
pub fn owned(text: Option<&str>) -> (copy: Option<String>)
    ensures
        optional(copy) == optional_slice(text),
{
    match text {
        Some(text) => Some(text.to_owned()),
        None => None,
    }
}

/// The text without the white space around it.
pub fn trim<'a>(text: &'a str) -> (rest: &'a str)
    ensures
        rest@ == trimmed(text@),
{
    let chars = chars_of(text);
    let ghost s = text@;
    let mut start: usize = 0;
    assert(s.subrange(0, s.len() as int) =~= s);
    while start < chars.len() && is_space(chars[start])
        invariant
            chars@ == s,
            start <= s.len(),
            trim_start(s.subrange(start as int, s.len() as int)) == trim_start(s),
        decreases s.len() - start,
    {
        assert(s.subrange(start as int, s.len() as int).drop_first() =~= s.subrange(
            start + 1,
            s.len() as int,
        ));
        start += 1;
    }
    assert(trim_start(s) == s.subrange(start as int, s.len() as int));
    let mut end: usize = chars.len();
    while end > start && is_space(chars[end - 1])
        invariant
            chars@ == s,
            start <= end <= s.len(),
            trim_start(s) == s.subrange(start as int, s.len() as int),
            trim_end(s.subrange(start as int, end as int)) == trimmed(s),
        decreases end - start,
    {
        assert(s.subrange(start as int, end as int).drop_last() =~= s.subrange(
            start as int,
            end - 1,
        ));
        end -= 1;
    }
    text.substring_char(start, end)
}

/// Whether a text, without the white space it begins with, begins with
/// `start`.
pub open spec fn leads_with(s: Seq<char>, start: Seq<char>) -> bool {
    stands_at(trim_start(s), start, 0)
}

/// Whether a text, without the white space it begins with, begins with
/// `start`.
pub fn begins_with(text: &str, start: &str) -> (begins: bool)
    ensures
        begins == leads_with(text@, start@),
{
    let chars = chars_of(text);
    let needle = chars_of(start);
    let ghost s = text@;
    let mut from: usize = 0;
    assert(s.subrange(0, s.len() as int) =~= s);
    while from < chars.len() && is_space(chars[from])
        invariant
            chars@ == s,
            from <= s.len(),
            trim_start(s.subrange(from as int, s.len() as int)) == trim_start(s),
        decreases s.len() - from,
    {
        assert(s.subrange(from as int, s.len() as int).drop_first() =~= s.subrange(
            from + 1,
            s.len() as int,
        ));
        from += 1;
    }
    let ghost rest = trim_start(s);
    assert(rest == s.subrange(from as int, s.len() as int));
    if chars.len() - from < needle.len() {
        return false;
    }
    let begins = stands(&chars, &needle, from);
    assert(s.subrange(from as int, from + needle@.len()) =~= rest.subrange(
        0,
        needle@.len() as int,
    ));
    begins
}

/// A text broken at its first colon.
pub open spec fn at_colon(s: Seq<char>) -> Option<(Seq<char>, Seq<char>)> {
    match found(s, ":"@) {
        Some(at) => Some((s.subrange(0, at), s.subrange(at + 1, s.len() as int))),
        None => None,
    }
}

/// A text broken at its first colon.
pub fn split_at_colon<'a>(text: &'a str) -> (halves: Option<(&'a str, &'a str)>)
    ensures
        match halves {
            Some((before, after)) => at_colon(text@) == Some((before@, after@)),
            None => at_colon(text@) is None,
        },
{
    let chars = chars_of(text);
    let length: usize = chars.len();
    proof {
        reveal_strlit(":");
    }
    match find(&chars, &chars_of(":")) {
        Some(at) => Some((text.substring_char(0, at), text.substring_char(at + 1, length))),
        None => None,
    }
}

fn find_break(chars: &Vec<char>, separator: Separator, from: usize) -> (at: usize)
    requires
        from <= chars@.len(),
    ensures
        at == next_break(chars@, separator, from as int),
        from <= at <= chars@.len(),
{
    let mut at: usize = from;
    while at < chars.len() && !separator.is_at(chars[at])
        invariant
            from <= at <= chars@.len(),
            next_break(chars@, separator, at as int) == next_break(chars@, separator, from as int),
        decreases chars@.len() - at,
    {
        at += 1;
    }
    at
}

/// The pieces of a text between its separators, the empty ones too.
pub fn split<'a>(text: &'a str, separator: Separator) -> (parts: Vec<&'a str>)
    ensures
        slices(parts@) == pieces(text@, separator),
        parts@.len() > 0,
{
    let chars = chars_of(text);
    let ghost s = text@;
    let mut parts: Vec<&'a str> = Vec::new();
    let mut start: usize = 0;
    let mut end: usize = find_break(&chars, separator, 0);
    assert(slices(parts@) + pieces_from(s, separator, 0) =~= pieces(s, separator));
    while end < chars.len()
        invariant
            chars@ == s,
            text@ == s,
            start <= end <= s.len(),
            end == next_break(s, separator, start as int),
            slices(parts@) + pieces_from(s, separator, start as int) == pieces(s, separator),
        decreases s.len() - end,
    {
        let ghost earlier = parts@;
        parts.push(text.substring_char(start, end));
        assert(slices(parts@) =~= slices(earlier).push(s.subrange(start as int, end as int)));
        assert(slices(parts@) + pieces_from(s, separator, end + 1) =~= slices(earlier)
            + pieces_from(s, separator, start as int));
        start = end + 1;
        end = find_break(&chars, separator, start);
    }
    let ghost earlier = parts@;
    parts.push(text.substring_char(start, end));
    assert(slices(parts@) =~= slices(earlier).push(s.subrange(start as int, end as int)));
    assert(slices(parts@) =~= pieces(s, separator));
    parts
}

/// The words of a text.
pub fn split_whitespace<'a>(text: &'a str) -> (found: Vec<&'a str>)
    ensures
        slices(found@) == words(text@),
{
    let parts = split(text, Separator::Space);
    let ghost kept = |piece: Seq<char>| piece.len() > 0;
    let mut found: Vec<&'a str> = Vec::new();
    let mut index: usize = 0;
    assert(slices(parts@).take(0) =~= Seq::empty());
    while index < parts.len()
        invariant
            index <= parts@.len(),
            kept == (|piece: Seq<char>| piece.len() > 0),
            slices(found@) == slices(parts@).take(index as int).filter(kept),
        decreases parts@.len() - index,
    {
        let ghost earlier = found@;
        let ghost all = slices(parts@);
        assert(all.take(index + 1).drop_last() =~= all.take(index as int));
        proof {
            reveal(Seq::filter);
        }
        if !parts[index].is_empty() {
            found.push(parts[index]);
            assert(slices(found@) =~= slices(earlier).push(all[index as int]));
        }
        index += 1;
    }
    assert(slices(parts@).take(parts@.len() as int) =~= slices(parts@));
    found
}

/// The lines of a text.
pub fn split_lines<'a>(text: &'a str) -> (found: Vec<&'a str>)
    ensures
        slices(found@) == lines(text@),
{
    let chars = chars_of(text);
    let ghost s = text@;
    let mut found: Vec<&'a str> = Vec::new();
    let mut start: usize = 0;
    assert(slices(found@) + lines_from(s, 0) =~= lines(s));
    while start < chars.len()
        invariant
            chars@ == s,
            text@ == s,
            start <= s.len(),
            slices(found@) + lines_from(s, start as int) == lines(s),
        decreases s.len() - start,
    {
        let ghost earlier = found@;
        let end = find_break(&chars, Separator::LineFeed, start);
        if end >= chars.len() {
            found.push(text.substring_char(start, end));
            assert(slices(found@) =~= slices(earlier).push(s.subrange(start as int, end as int)));
            assert(lines_from(s, end as int) =~= Seq::empty());
            assert(slices(found@) + lines_from(s, end as int) =~= slices(earlier) + lines_from(
                s,
                start as int,
            ));
            start = end;
        } else {
            let stop: usize = if end > start && chars[end - 1] == '\r' {
                end - 1
            } else {
                end
            };
            found.push(text.substring_char(start, stop));
            assert(s.subrange(start as int, end as int).drop_last() =~= s.subrange(
                start as int,
                end - 1,
            ) || end == start);
            assert(found@.last()@ == without_return(s.subrange(start as int, end as int)));
            assert(slices(found@) =~= slices(earlier).push(found@.last()@));
            assert(slices(found@) + lines_from(s, end + 1) =~= slices(earlier) + lines_from(
                s,
                start as int,
            ));
            start = end + 1;
        }
    }
    assert(lines_from(s, start as int) =~= Seq::empty());
    assert(slices(found@) =~= lines(s));
    found
}

fn stands(chars: &Vec<char>, needle: &Vec<char>, at: usize) -> (equal: bool)
    requires
        at + needle@.len() <= chars@.len(),
    ensures
        equal == stands_at(chars@, needle@, at as int),
{
    let length: usize = chars.len();
    let mut index: usize = 0;
    while index < needle.len()
        invariant
            length == chars@.len(),
            index <= needle@.len(),
            at + needle@.len() <= length,
            forall|i: int| 0 <= i < index ==> chars@[at + i] == needle@[i],
        decreases needle@.len() - index,
    {
        if chars[at + index] != needle[index] {
            assert(chars@.subrange(at as int, at + needle@.len())[index as int]
                != needle@[index as int]);
            return false;
        }
        index += 1;
    }
    assert(chars@.subrange(at as int, at + needle@.len()) =~= needle@);
    true
}

/// Where `needle` first stands among the characters.
pub fn find(chars: &Vec<char>, needle: &Vec<char>) -> (at: Option<usize>)
    ensures
        match at {
            Some(at) => found(chars@, needle@) == Some(at as int) && at + needle@.len()
                <= chars@.len(),
            None => found(chars@, needle@) is None,
        },
{
    if needle.len() > chars.len() {
        return None;
    }
    let last: usize = chars.len() - needle.len();
    let mut at: usize = 0;
    while at <= last
        invariant
            last + needle@.len() == chars@.len(),
            at <= last + 1,
            last < usize::MAX || at <= last,
            found_from(chars@, needle@, at as int) == found(chars@, needle@),
        decreases last + 1 - at,
    {
        if stands(chars, needle, at) {
            return Some(at);
        }
        if at == last {
            assert(found_from(chars@, needle@, at + 1) is None);
            return None;
        }
        at += 1;
    }
    None
}

/// Whether `needle` stands anywhere in the text.
pub fn contains(text: &str, needle: &str) -> (inside: bool)
    ensures
        inside == (found(text@, needle@) is Some),
{
    find(&chars_of(text), &chars_of(needle)).is_some()
}

fn lower_of(c: char) -> (small: char)
    ensures
        small == lower(c),
{
    if 'A' <= c && c <= 'Z' {
        ((c as u8) + 32) as char
    } else {
        c
    }
}

/// The characters of a text with its ASCII letters in lower case.
pub fn lower_chars(text: &str) -> (chars: Vec<char>)
    ensures
        chars@ == lowered(text@),
{
    let mut chars: Vec<char> = Vec::new();
    for c in walk: text.chars()
        invariant
            walk.seq() == text@,
            chars@ == lowered(text@.take(walk.index())),
    {
        chars.push(lower_of(c));
        assert(chars@ =~= lowered(text@.take(walk.index() + 1)));
    }
    assert(text@.take(text@.len() as int) =~= text@);
    chars
}

/// Whether two texts are the same but for the case of their ASCII letters.
pub fn same_ignoring_case(a: &str, b: &str) -> (equal: bool)
    ensures
        equal == (lowered(a@) == lowered(b@)),
{
    let a = lower_chars(a);
    let b = lower_chars(b);
    if a.len() != b.len() {
        return false;
    }
    let at_start = stands(&a, &b, 0);
    assert(a@.subrange(0, a@.len() as int) =~= a@);
    at_start
}

/// The texts one after another, with `between` between them.
pub fn join(parts: &Vec<&str>, between: &str) -> (whole: String)
    ensures
        whole@ == joined(slices(parts@), between@),
{
    let mut whole = String::new();
    let mut index: usize = 0;
    assert(joined(slices(parts@).take(0), between@) =~= Seq::empty());
    while index < parts.len()
        invariant
            index <= parts@.len(),
            whole@ == joined(slices(parts@).take(index as int), between@),
        decreases parts@.len() - index,
    {
        let ghost all = slices(parts@);
        assert(all.take(index + 1).drop_last() =~= all.take(index as int));
        assert(all.take(index + 1).last() == parts@[index as int]@);
        if index > 0 {
            whole.append(between);
        }
        whole.append(parts[index]);
        if index == 0 {
            assert(whole@ =~= all[0]);
        }
        index += 1;
    }
    assert(slices(parts@).take(parts@.len() as int) =~= slices(parts@));
    whole
}

/// The strings one after another, with `between` between them.
pub fn join_strings(parts: &Vec<String>, between: &str) -> (whole: String)
    ensures
        whole@ == joined(texts(parts@), between@),
{
    let mut borrowed: Vec<&str> = Vec::new();
    let mut index: usize = 0;
    while index < parts.len()
        invariant
            index <= parts@.len(),
            slices(borrowed@) == texts(parts@).take(index as int),
        decreases parts@.len() - index,
    {
        let ghost earlier = borrowed@;
        borrowed.push(parts[index].as_str());
        assert(slices(borrowed@) =~= slices(earlier).push(parts@[index as int]@));
        assert(texts(parts@).take(index + 1) =~= texts(parts@).take(index as int).push(
            parts@[index as int]@,
        ));
        index += 1;
    }
    assert(texts(parts@).take(parts@.len() as int) =~= texts(parts@));
    join(&borrowed, between)
}

fn digit_text(n: u16) -> (text: &'static str)
    requires
        n < 10,
    ensures
        text@ == seq![digit(n as nat)],
{
    proof {
        reveal_strlit("0");
        reveal_strlit("1");
        reveal_strlit("2");
        reveal_strlit("3");
        reveal_strlit("4");
        reveal_strlit("5");
        reveal_strlit("6");
        reveal_strlit("7");
        reveal_strlit("8");
        reveal_strlit("9");
    }
    if n == 0 {
        "0"
    } else if n == 1 {
        "1"
    } else if n == 2 {
        "2"
    } else if n == 3 {
        "3"
    } else if n == 4 {
        "4"
    } else if n == 5 {
        "5"
    } else if n == 6 {
        "6"
    } else if n == 7 {
        "7"
    } else if n == 8 {
        "8"
    } else {
        "9"
    }
}

/// A number in decimal.
pub fn decimal_text(n: u16) -> (text: String)
    ensures
        text@ == decimal(n as nat),
    decreases n,
{
    if n < 10 {
        digit_text(n).to_owned()
    } else {
        let mut text = decimal_text(n / 10);
        text.append(digit_text(n % 10));
        assert(text@ =~= decimal(n as nat / 10).push(digit(n as nat % 10)));
        text
    }
}

/// The number a text stands for, if it is one and fits in 32 bits.
pub fn parse_number(text: &str) -> (value: Option<u32>)
    ensures
        value == number(text@),
{
    let chars = chars_of(text);
    let start: usize = if chars.len() > 0 && chars[0] == '+' {
        1
    } else {
        0
    };
    let ghost digits = unsigned(text@);
    assert(digits =~= text@.skip(start as int));
    if start == chars.len() {
        return None;
    }
    let mut value: u64 = 0;
    let mut fits = true;
    let mut index: usize = start;
    while index < chars.len()
        invariant
            start <= index <= chars@.len(),
            digits == unsigned(text@),
            digits == chars@.skip(start as int),
            fits ==> value == value_of(digits.take(index - start)),
            fits ==> value <= u32::MAX,
            !fits ==> value_of(digits.take(index - start)) > u32::MAX,
            all_digits(digits.take(index - start)),
        decreases chars@.len() - index,
    {
        let c = chars[index];
        assert(digits[index - start] == c);
        let ghost seen = digits.take(index - start);
        let ghost next = digits.take(index + 1 - start);
        assert(next.drop_last() =~= seen);
        assert(next.last() == c);
        if !('0' <= c && c <= '9') {
            assert(!all_digits(digits));
            return None;
        }
        assert(all_digits(next)) by {
            assert forall|i: int| 0 <= i < next.len() implies '0' <= #[trigger] next[i] <= '9' by {
                if i < seen.len() {
                    assert(next[i] == seen[i]);
                }
            }
        }
        if fits {
            value = value * 10 + ((c as u8) - 48) as u64;
            if value > 0xffff_ffff {
                fits = false;
            }
        }
        index += 1;
    }
    assert(digits.take(digits.len() as int) =~= digits);
    if fits {
        Some(value as u32)
    } else {
        None
    }
}

} // verus!
