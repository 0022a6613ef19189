//! What reading and building text comes to, said of the characters.

use super::Separator;
use vstd::prelude::*;

verus! {

/// What counts as white space.
pub proof fn law_white_space_is_what_unicode_says(c: char)
    ensures
        super::space(c) <==> (9 <= c as u32 <= 13 || c as u32 == 32 || c as u32 == 0x85 || c as u32
            == 0xa0 || c as u32 == 0x1680 || 0x2000 <= c as u32 <= 0x200a || c as u32 == 0x2028 || c
            as u32 == 0x2029 || c as u32 == 0x202f || c as u32 == 0x205f || c as u32 == 0x3000),
{
}

/// Whether every character of a text is white space.
pub open spec fn blank(s: Seq<char>) -> bool {
    forall|i: int| 0 <= i < s.len() ==> super::space(#[trigger] s[i])
}

proof fn the_start_is_blank(s: Seq<char>) -> (before: Seq<char>)
    ensures
        s == before + super::trim_start(s),
        blank(before),
        super::trim_start(s).len() > 0 ==> !super::space(super::trim_start(s)[0]),
    decreases s.len(),
{
    if s.len() > 0 && super::space(s[0]) {
        let rest = the_start_is_blank(s.drop_first());
        let before = seq![s[0]] + rest;
        assert(s =~= seq![s[0]] + s.drop_first());
        assert(super::trim_start(s) == super::trim_start(s.drop_first()));
        assert(s =~= before + super::trim_start(s));
        assert forall|i: int| 0 <= i < before.len() implies super::space(#[trigger] before[i]) by {
            if i > 0 {
                assert(before[i] == rest[i - 1]);
            }
        }
        before
    } else {
        assert(s =~= Seq::<char>::empty() + s);
        Seq::empty()
    }
}

proof fn the_end_is_blank(s: Seq<char>) -> (after: Seq<char>)
    ensures
        s == super::trim_end(s) + after,
        blank(after),
        super::trim_end(s).len() > 0 ==> !super::space(super::trim_end(s).last()),
    decreases s.len(),
{
    if s.len() > 0 && super::space(s.last()) {
        let rest = the_end_is_blank(s.drop_last());
        let after = rest.push(s.last());
        assert(s =~= s.drop_last().push(s.last()));
        assert(super::trim_end(s) == super::trim_end(s.drop_last()));
        assert(s =~= super::trim_end(s) + after);
        assert forall|i: int| 0 <= i < after.len() implies super::space(#[trigger] after[i]) by {
            if i < rest.len() {
                assert(after[i] == rest[i]);
            }
        }
        after
    } else {
        assert(s =~= s + Seq::<char>::empty());
        Seq::empty()
    }
}

/// Trimming takes white space off both ends and nothing else: what is left
/// neither begins nor ends with any, and what was taken was nothing else.
pub proof fn law_only_the_ends_are_trimmed(s: Seq<char>) -> (ends: (Seq<char>, Seq<char>))
    ensures
        s == ends.0 + super::trimmed(s) + ends.1,
        blank(ends.0),
        blank(ends.1),
        super::trimmed(s).len() > 0 ==> !super::space(super::trimmed(s)[0]) && !super::space(
            super::trimmed(s).last(),
        ),
{
    let before = the_start_is_blank(s);
    let middle = super::trim_start(s);
    let after = the_end_is_blank(middle);
    assert(s =~= before + super::trimmed(s) + after);
    if super::trimmed(s).len() > 0 {
        assert(super::trimmed(s)[0] == middle[0]);
    }
    (before, after)
}

/// A text that neither begins nor ends with white space is left alone.
pub proof fn law_a_tight_text_is_left_alone(s: Seq<char>)
    requires
        s.len() > 0 ==> !super::space(s[0]) && !super::space(s.last()),
    ensures
        super::trimmed(s) == s,
{
}

/// Only the letters from `A` to `Z` have another lower case.
pub proof fn law_only_capitals_are_lowered(c: char)
    ensures
        'A' <= c <= 'Z' ==> super::lower(c) as u32 == c as u32 + 32,
        !('A' <= c <= 'Z') ==> super::lower(c) == c,
{
    if 'A' <= c <= 'Z' {
        let small: u8 = ((c as u8) + 32) as u8;
        assert(small as char as u32 == c as u32 + 32);
    }
}

/// A text in lower case is as long as it was, letter by letter.
pub proof fn law_a_text_is_lowered_letter_by_letter(s: Seq<char>)
    ensures
        super::lowered(s).len() == s.len(),
        forall|i: int|
            0 <= i < s.len() ==> #[trigger] super::lowered(s)[i] == super::lower(s[i]),
{
}

/// Where a text is broken: at a comma, at either slash, at a line feed, at
/// white space.
pub proof fn law_a_separator_is_its_character(c: char)
    ensures
        Separator::Comma.at(c) <==> c == ',',
        Separator::Slash.at(c) <==> c == '/' || c == '\\',
        Separator::LineFeed.at(c) <==> c == '\n',
        Separator::Space.at(c) <==> super::space(c),
{
}

proof fn the_next_break(s: Seq<char>, separator: Separator, from: int)
    requires
        0 <= from <= s.len(),
    ensures
        from <= super::next_break(s, separator, from) <= s.len(),
        forall|i: int|
            from <= i < super::next_break(s, separator, from) ==> !separator.at(#[trigger] s[i]),
        super::next_break(s, separator, from) < s.len() ==> separator.at(
            s[super::next_break(s, separator, from)],
        ),
    decreases s.len() - from,
{
    if from < s.len() && !separator.at(s[from]) {
        the_next_break(s, separator, from + 1);
    }
}

/// What stands after a position is broken the same way wherever it stands.
proof fn pieces_do_not_depend_on_what_came_before(
    s: Seq<char>,
    separator: Separator,
    start: int,
)
    requires
        0 <= start <= s.len(),
    ensures
        super::pieces_from(s, separator, start) == super::pieces(s.skip(start), separator),
    decreases s.len() - start,
{
    pieces_move(s, s.skip(start), separator, start, 0);
}

proof fn pieces_move(
    s: Seq<char>,
    rest: Seq<char>,
    separator: Separator,
    start: int,
    from: int,
)
    requires
        0 <= start <= s.len(),
        rest == s.skip(start),
        0 <= from <= rest.len(),
    ensures
        super::pieces_from(s, separator, start + from) == super::pieces_from(rest, separator, from),
    decreases rest.len() - from,
{
    breaks_move(s, rest, separator, start, from);
    the_next_break(rest, separator, from);
    let end = super::next_break(rest, separator, from);
    if end < rest.len() {
        pieces_move(s, rest, separator, start, end + 1);
        assert(s.subrange(start + from, start + end) =~= rest.subrange(from, end));
        assert(super::pieces_from(s, separator, start + from) =~= super::pieces_from(
            rest,
            separator,
            from,
        ));
    } else {
        assert(s.subrange(start + from, s.len() as int) =~= rest.subrange(
            from,
            rest.len() as int,
        ));
    }
}

proof fn breaks_move(
    s: Seq<char>,
    rest: Seq<char>,
    separator: Separator,
    start: int,
    from: int,
)
    requires
        0 <= start <= s.len(),
        rest == s.skip(start),
        0 <= from <= rest.len(),
    ensures
        super::next_break(s, separator, start + from) == start + super::next_break(
            rest,
            separator,
            from,
        ),
    decreases rest.len() - from,
{
    if from < rest.len() && !separator.at(rest[from]) {
        breaks_move(s, rest, separator, start, from + 1);
    }
}

/// A text without a separator is one piece, and what stands before the first
/// separator is the first piece: the rest is broken as if it stood alone.
pub proof fn law_a_text_is_broken_at_its_separators(
    first: Seq<char>,
    broken: char,
    rest: Seq<char>,
    separator: Separator,
)
    requires
        forall|i: int| 0 <= i < first.len() ==> !separator.at(#[trigger] first[i]),
    ensures
        super::pieces(first, separator) == seq![first],
        separator.at(broken) ==> super::pieces(first.push(broken) + rest, separator) == seq![first]
            + super::pieces(rest, separator),
{
    the_next_break(first, separator, 0);
    let end = super::next_break(first, separator, 0);
    if end < first.len() {
        assert(!separator.at(first[end]));
    }
    assert(first.subrange(0, first.len() as int) =~= first);
    if separator.at(broken) {
        let s = first.push(broken) + rest;
        the_next_break(s, separator, 0);
        let at = super::next_break(s, separator, 0);
        assert(s[first.len() as int] == broken);
        if at < first.len() {
            assert(s[at] == first[at]);
        }
        assert(at == first.len());
        assert(s.subrange(0, at) =~= first);
        pieces_do_not_depend_on_what_came_before(s, separator, at + 1);
        assert(s.skip(at + 1) =~= rest);
    }
}

/// The words of a text are its pieces between white space that hold something:
/// white space alone holds no word, a text without any is one word, and words
/// are read one after another.
pub proof fn law_words_stand_between_white_space(first: Seq<char>, gap: char, rest: Seq<char>)
    requires
        forall|i: int| 0 <= i < first.len() ==> !super::space(#[trigger] first[i]),
        super::space(gap),
    ensures
        super::words(first) == if first.len() > 0 {
            seq![first]
        } else {
            Seq::empty()
        },
        super::words(first.push(gap) + rest) == super::words(first) + super::words(rest),
{
    law_a_text_is_broken_at_its_separators(first, gap, rest, Separator::Space);
    let kept = |piece: Seq<char>| piece.len() > 0;
    let one = seq![first];
    assert(one.drop_last() =~= Seq::empty());
    reveal(Seq::filter);
    reveal_with_fuel(Seq::filter, 2);
    assert(one.filter(kept) =~= if first.len() > 0 {
        seq![first]
    } else {
        Seq::empty()
    });
    Seq::filter_distributes_over_add(one, super::pieces(rest, Separator::Space), kept);
}

/// A line ends at a line feed, without the carriage return before it; the last
/// line needs none, and a text that holds nothing holds no line.
pub proof fn law_a_line_ends_at_a_line_feed(first: Seq<char>, rest: Seq<char>)
    requires
        forall|i: int| 0 <= i < first.len() ==> #[trigger] first[i] != '\n',
    ensures
        super::lines(Seq::<char>::empty()).len() == 0,
        first.len() > 0 ==> super::lines(first) == seq![first],
        super::lines(first.push('\n') + rest) == seq![
            if first.len() > 0 && first.last() == '\r' {
                first.drop_last()
            } else {
                first
            },
        ] + super::lines(rest),
{
    the_next_break(first, Separator::LineFeed, 0);
    assert(first.subrange(0, first.len() as int) =~= first);
    let s = first.push('\n') + rest;
    the_next_break(s, Separator::LineFeed, 0);
    let at = super::next_break(s, Separator::LineFeed, 0);
    assert(s[first.len() as int] == '\n');
    if at < first.len() {
        assert(s[at] == first[at]);
    }
    assert(s.subrange(0, at) =~= first);
    lines_move(s, s.skip(at + 1), at + 1, 0);
    assert(s.skip(at + 1) =~= rest);
}

proof fn lines_move(s: Seq<char>, rest: Seq<char>, start: int, from: int)
    requires
        0 <= start <= s.len(),
        rest == s.skip(start),
        0 <= from <= rest.len(),
    ensures
        super::lines_from(s, start + from) == super::lines_from(rest, from),
    decreases rest.len() - from,
{
    if from < rest.len() {
        breaks_move(s, rest, Separator::LineFeed, start, from);
        the_next_break(rest, Separator::LineFeed, from);
        let end = super::next_break(rest, Separator::LineFeed, from);
        if end < rest.len() {
            lines_move(s, rest, start, end + 1);
            assert(s.subrange(start + from, start + end) =~= rest.subrange(from, end));
        } else {
            assert(s.subrange(start + from, s.len() as int) =~= rest.subrange(
                from,
                rest.len() as int,
            ));
        }
    }
}

/// Whether a text stands in another at a position.
pub open spec fn occurs(s: Seq<char>, needle: Seq<char>, at: int) -> bool {
    &&& 0 <= at
    &&& at + needle.len() <= s.len()
    &&& forall|i: int| 0 <= i < needle.len() ==> s[at + i] == #[trigger] needle[i]
}

proof fn standing_is_occurring(s: Seq<char>, needle: Seq<char>, at: int)
    requires
        0 <= at,
    ensures
        super::stands_at(s, needle, at) <==> occurs(s, needle, at),
{
    if super::stands_at(s, needle, at) {
        assert forall|i: int| 0 <= i < needle.len() implies s[at + i] == #[trigger] needle[i] by {
            assert(s.subrange(at, at + needle.len())[i] == needle[i]);
        }
    }
    if occurs(s, needle, at) {
        assert(s.subrange(at, at + needle.len()) =~= needle);
    }
}

proof fn finding_from(s: Seq<char>, needle: Seq<char>, from: int)
    requires
        0 <= from,
    ensures
        match super::found_from(s, needle, from) {
            Some(at) => from <= at && occurs(s, needle, at) && forall|j: int|
                from <= j < at ==> !#[trigger] occurs(s, needle, j),
            None => forall|j: int| from <= j ==> !#[trigger] occurs(s, needle, j),
        },
    decreases s.len() + 1 - from,
{
    if from + needle.len() <= s.len() {
        standing_is_occurring(s, needle, from);
        if !super::stands_at(s, needle, from) {
            finding_from(s, needle, from + 1);
        }
    }
}

/// What is looked for is found where it first stands, and not at all where it
/// stands nowhere.
pub proof fn law_a_text_is_found_where_it_first_stands(s: Seq<char>, needle: Seq<char>)
    ensures
        match super::found(s, needle) {
            Some(at) => occurs(s, needle, at) && forall|j: int|
                0 <= j < at ==> !#[trigger] occurs(s, needle, j),
            None => forall|j: int| !#[trigger] occurs(s, needle, j),
        },
{
    finding_from(s, needle, 0);
}

/// A text is broken at its first colon into what comes before and what comes
/// after.
pub proof fn law_a_text_is_broken_at_its_first_colon(before: Seq<char>, after: Seq<char>)
    requires
        forall|i: int| 0 <= i < before.len() ==> #[trigger] before[i] != ':',
    ensures
        super::at_colon(before) is None,
        super::at_colon(before.push(':') + after) == Some((before, after)),
{
    reveal_strlit(":");
    let s = before.push(':') + after;
    assert(":"@.len() == 1 && ":"@[0] == ':');
    law_a_text_is_found_where_it_first_stands(before, ":"@);
    law_a_text_is_found_where_it_first_stands(s, ":"@);
    if super::found(before, ":"@) is Some {
        let at = super::found(before, ":"@)->0;
        assert(":"@[0] == before[at + 0]);
        assert(before[at] != ':');
    }
    assert(s[before.len() as int] == ':');
    assert(occurs(s, ":"@, before.len() as int));
    if super::found(s, ":"@) is Some {
        let at = super::found(s, ":"@)->0;
        assert(":"@[0] == s[at + 0]);
        if at < before.len() {
            assert(s[at] == before[at]);
        }
        assert(at == before.len());
        assert(s.subrange(0, at) =~= before);
        assert(s.subrange(at + 1, s.len() as int) =~= after);
    }
}

/// Texts are joined one after another, with what comes between them between
/// every two and nowhere else.
pub proof fn law_texts_are_joined_in_order(
    parts: Seq<Seq<char>>,
    more: Seq<char>,
    between: Seq<char>,
)
    ensures
        super::joined(Seq::<Seq<char>>::empty(), between).len() == 0,
        super::joined(seq![more], between) == more,
        parts.len() > 0 ==> super::joined(parts.push(more), between) == super::joined(
            parts,
            between,
        ) + between + more,
{
    assert(parts.push(more).drop_last() =~= parts);
}

/// A number reads back as itself: it is written in digits, without a leading
/// zero, and its digits stand for it.
pub proof fn law_a_number_reads_back(n: nat)
    ensures
        super::decimal(n).len() > 0,
        forall|i: int| 0 <= i < super::decimal(n).len() ==> '0' <= #[trigger] super::decimal(n)[i] <= '9',
        super::value_of(super::decimal(n)) == n,
        super::decimal(n).len() > 1 ==> super::decimal(n)[0] != '0',
    decreases n,
{
    reveal_with_fuel(super::value_of, 2);
    if n < 10 {
        assert(super::decimal(n) =~= seq![super::digit(n)]);
        assert(super::digit(n) as u32 == 48 + n);
        assert(super::decimal(n).drop_last() =~= Seq::empty());
    } else {
        let rest = n / 10;
        law_a_number_reads_back(rest);
        let all = super::decimal(n);
        assert(all.drop_last() =~= super::decimal(rest));
        assert(super::digit(n % 10) as u32 == 48 + n % 10);
        assert forall|i: int| 0 <= i < all.len() implies '0' <= #[trigger] all[i] <= '9' by {
            if i < all.len() - 1 {
                assert(all[i] == super::decimal(rest)[i]);
            }
        }
        assert(all[0] == super::decimal(rest)[0]);
        if super::decimal(rest).len() == 1 {
            reveal_with_fuel(super::value_of, 2);
            assert(super::decimal(rest).drop_last() =~= Seq::empty());
            assert(super::value_of(super::decimal(rest)) == super::decimal(rest)[0] as int - 48);
        }
    }
}

/// Digits stand for ten times what those before the last stand for, and the
/// last.
pub proof fn law_digits_stand_for_a_number(digits: Seq<char>, last: char)
    requires
        '0' <= last <= '9',
    ensures
        super::value_of(Seq::<char>::empty()) == 0,
        super::value_of(digits.push(last)) == super::value_of(digits) * 10 + (last as int - 48),
{
    assert(digits.push(last).drop_last() =~= digits);
}

/// A text is a number where it is digits, perhaps after a plus sign, and what
/// they stand for fits; it is then that number.
pub proof fn law_a_number_is_digits_that_fit(s: Seq<char>, digits: Seq<char>)
    requires
        digits == if s.len() > 0 && s[0] == '+' {
            s.skip(1)
        } else {
            s
        },
    ensures
        super::number(s) is Some <==> digits.len() > 0 && (forall|i: int|
            0 <= i < digits.len() ==> '0' <= #[trigger] digits[i] <= '9') && super::value_of(digits)
            <= 0xffff_ffff,
        super::number(s) is Some ==> super::number(s)->0 == super::value_of(digits),
{
    assert(super::unsigned(s) =~= digits);
}

/// What optional and listed texts hold is each of them.
pub proof fn law_a_text_is_taken_as_it_is(string: Option<String>, strings: Seq<String>)
    ensures
        string is Some ==> super::optional(string) == Some(string->0@),
        string is None ==> super::optional(string) is None,
        super::texts(strings).len() == strings.len(),
        forall|i: int|
            0 <= i < strings.len() ==> #[trigger] super::texts(strings)[i] == strings[i]@,
{
}

/// A text leads with another where that stands first after the white space it
/// begins with.
pub proof fn law_white_space_does_not_lead(space: Seq<char>, s: Seq<char>, start: Seq<char>)
    requires
        blank(space),
        s.len() > 0 ==> !super::space(s[0]),
    ensures
        super::leads_with(space + s, start) <==> occurs(s, start, 0),
    decreases space.len(),
{
    if space.len() == 0 {
        assert(space + s =~= s);
        standing_is_occurring(s, start, 0);
    } else {
        assert(super::space(space[0]));
        assert((space + s).drop_first() =~= space.drop_first() + s);
        assert forall|i: int| 0 <= i < space.drop_first().len() implies super::space(
            #[trigger] space.drop_first()[i],
        ) by {
            assert(space.drop_first()[i] == space[i + 1]);
        }
        law_white_space_does_not_lead(space.drop_first(), s, start);
    }
}

/// What borrowed texts hold is each of them, in their order.
pub proof fn law_a_slice_is_taken_as_it_is(string: Option<&str>, strings: Seq<&str>)
    ensures
        string is Some ==> super::optional_slice(string) == Some(string->0@),
        string is None ==> super::optional_slice(string) is None,
        super::slices(strings).len() == strings.len(),
        forall|i: int|
            0 <= i < strings.len() ==> #[trigger] super::slices(strings)[i] == strings[i]@,
{
}

} // verus!
