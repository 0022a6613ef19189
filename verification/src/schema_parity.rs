//! Keeps the enums and the SQL `CHECK` constraints in agreement.
//!
//! Both exist for good reasons: the constraint protects the file from any
//! writer, the enum protects the code from typos. But two lists of the same
//! values drift. These helpers extract the constraint lists from the migration
//! text so a test can compare them, turning a drift into a failed build instead
//! of a runtime insert that a `CHECK` refuses in production.

pub mod laws;

use crate::text::{Separator, chars_of, find, split, trim};
use vstd::prelude::*;

verus! {

/// How a table's definition begins, with the name bare or quoted.
pub open spec fn opening(table: Seq<char>, quoted: bool) -> Seq<char> {
    if quoted {
        "CREATE TABLE \""@ + table + "\" ("@
    } else {
        "CREATE TABLE "@ + table + " ("@
    }
}

/// Where the body of a table begins: after the bare opening, or after the
/// quoted one where there is no bare one.
pub open spec fn body_start(sql: Seq<char>, table: Seq<char>) -> Option<int> {
    match crate::text::found(sql, opening(table, false)) {
        Some(at) => Some(at + opening(table, false).len()),
        None => match crate::text::found(sql, opening(table, true)) {
            Some(at) => Some(at + opening(table, true).len()),
            None => None,
        },
    }
}

/// Where the parenthesis is that closes the body, with `depth` of them open at
/// `from`.
pub open spec fn closing(sql: Seq<char>, from: int, depth: int) -> Option<int>
    decreases sql.len() - from,
{
    if from >= sql.len() {
        None
    } else if sql[from] == '(' {
        closing(sql, from + 1, depth + 1)
    } else if sql[from] == ')' {
        if depth == 1 {
            Some(from)
        } else {
            closing(sql, from + 1, depth - 1)
        }
    } else {
        closing(sql, from + 1, depth)
    }
}

/// The body of a table's definition.
pub open spec fn body_of(sql: Seq<char>, table: Seq<char>) -> Option<Seq<char>> {
    match body_start(sql, table) {
        Some(start) => match closing(sql, start, 1) {
            Some(end) => Some(sql.subrange(start, end)),
            None => None,
        },
        None => None,
    }
}

fn opening_chars(table: &str, quoted: bool) -> (chars: Vec<char>)
    ensures
        chars@ == opening(table@, quoted),
{
    let text = if quoted {
        "CREATE TABLE \"".to_owned().concat(table).concat("\" (")
    } else {
        "CREATE TABLE ".to_owned().concat(table).concat(" (")
    };
    chars_of(text.as_str())
}

/// The `CREATE TABLE` body for one table, or `None` if there is no such table.
///
/// Accepts a quoted table name as well as a bare one. Migration text is written
/// bare, but the definition SQLite keeps for a table that has been through an
/// `ALTER TABLE ... RENAME TO` is quoted, and reading the live schema is the
/// only way to be sure which migration currently owns a table.
pub fn table_body<'a>(sql: &'a str, table: &str) -> (body: Option<&'a str>)
    ensures
        crate::text::optional_slice(body) == body_of(sql@, table@),
{
    let chars = chars_of(sql);
    let length: usize = chars.len();
    let bare = opening_chars(table, false);
    let start: usize = match find(&chars, &bare) {
        Some(at) => at + bare.len(),
        None => {
            let quoted = opening_chars(table, true);
            match find(&chars, &quoted) {
                Some(at) => at + quoted.len(),
                None => return None,
            }
        },
    };

    // Walk to the matching close paren, tracking nesting so the parentheses
    // inside CHECK expressions do not end the body early.
    let mut depth: u128 = 1;
    let mut index: usize = start;
    while index < length
        invariant
            length == chars@.len(),
            chars@ == sql@,
            body_start(sql@, table@) == Some(start as int),
            start <= index <= chars@.len(),
            1 <= depth <= index - start + 1,
            closing(sql@, index as int, depth as int) == closing(sql@, start as int, 1),
        decreases chars@.len() - index,
    {
        let c = chars[index];
        if c == '(' {
            depth += 1;
        } else if c == ')' {
            if depth == 1 {
                return Some(sql.substring_char(start, index));
            }
            depth -= 1;
        }
        index += 1;
    }
    None
}

/// What stands between the quotes of a quoted token.
pub open spec fn unquoted(token: Seq<char>) -> Option<Seq<char>> {
    if token.len() >= 2 && token[0] == '\'' && token.last() == '\'' {
        Some(token.subrange(1, token.len() - 1))
    } else {
        None
    }
}

/// The quoted values among the first tokens.
pub open spec fn values_among(tokens: Seq<Seq<char>>, first: int) -> Seq<Seq<char>>
    decreases first,
{
    if first <= 0 {
        Seq::empty()
    } else {
        let earlier = values_among(tokens, first - 1);
        match unquoted(crate::text::trimmed(tokens[first - 1])) {
            Some(value) => earlier.push(value),
            None => earlier,
        }
    }
}

/// The position of the first closing parenthesis at or after `from`; the
/// length of the text where there is none.
pub open spec fn first_close(s: Seq<char>, from: int) -> int
    decreases s.len() - from,
{
    if from >= s.len() || s[from] == ')' {
        from
    } else {
        first_close(s, from + 1)
    }
}

/// The quoted values of `<column> IN (...)` within a table body, where there
/// are any.
pub open spec fn values_of(body: Seq<char>, column: Seq<char>) -> Option<Seq<Seq<char>>> {
    match crate::text::found(body, column + " IN ("@) {
        Some(at) => {
            let start = at + (column + " IN ("@).len();
            let end = first_close(body, start);
            let tokens = crate::text::pieces(body.subrange(start, end), Separator::Comma);
            let values = values_among(tokens, tokens.len() as int);
            if end < body.len() && values.len() > 0 {
                Some(values)
            } else {
                None
            }
        },
        None => None,
    }
}

/// What an optional list of strings holds.
pub open spec fn optional_texts(list: Option<Vec<String>>) -> Option<Seq<Seq<char>>> {
    match list {
        Some(list) => Some(crate::text::texts(list@)),
        None => None,
    }
}

fn unquote<'a>(token: &'a str) -> (value: Option<&'a str>)
    ensures
        crate::text::optional_slice(value) == unquoted(token@),
{
    let chars = chars_of(token);
    if chars.len() >= 2 && chars[0] == '\'' && chars[chars.len() - 1] == '\'' {
        Some(token.substring_char(1, chars.len() - 1))
    } else {
        None
    }
}

/// The quoted values of `<column> IN (...)` within a table body.
pub fn check_values(table_body: &str, column: &str) -> (values: Option<Vec<String>>)
    ensures
        optional_texts(values) == values_of(table_body@, column@),
{
    let chars = chars_of(table_body);
    let length: usize = chars.len();
    let needle = chars_of(column.to_owned().concat(" IN (").as_str());
    let start: usize = match find(&chars, &needle) {
        Some(at) => at + needle.len(),
        None => return None,
    };
    let mut end: usize = start;
    while end < length && chars[end] != ')'
        invariant
            length == chars@.len(),
            start <= end <= chars@.len(),
            first_close(chars@, end as int) == first_close(chars@, start as int),
        decreases chars@.len() - end,
    {
        end += 1;
    }
    if end >= length {
        return None;
    }
    let tokens = split(table_body.substring_char(start, end), Separator::Comma);
    let ghost all = crate::text::slices(tokens@);
    let mut values: Vec<String> = Vec::new();
    let mut index: usize = 0;
    assert(crate::text::texts(values@) =~= Seq::empty());
    while index < tokens.len()
        invariant
            index <= tokens@.len(),
            all == crate::text::slices(tokens@),
            crate::text::texts(values@) == values_among(all, index as int),
        decreases tokens@.len() - index,
    {
        let ghost earlier = crate::text::texts(values@);
        assert(all[index as int] == tokens@[index as int]@);
        if let Some(value) = unquote(trim(tokens[index])) {
            values.push(value.to_owned());
            assert(crate::text::texts(values@) =~= earlier.push(value@));
        }
        index += 1;
    }
    assert(crate::text::texts(values@).len() == values@.len());
    if values.len() > 0 {
        Some(values)
    } else {
        None
    }
}

/// How many more parentheses are opened than closed.
pub open spec fn open_count(s: Seq<char>) -> int
    decreases s.len(),
{
    if s.len() == 0 {
        0
    } else {
        open_count(s.drop_last()) + if s.last() == '(' {
            1int
        } else if s.last() == ')' {
            -1
        } else {
            0
        }
    }
}

proof fn closing_closes(sql: Seq<char>, start: int, from: int, depth: int, end: int)
    requires
        0 <= start <= from <= sql.len(),
        depth >= 1,
        depth == 1 + open_count(sql.subrange(start, from)),
        closing(sql, from, depth) == Some(end),
        forall|i: int|
            start <= i <= from ==> open_count(#[trigger] sql.subrange(start, i)) >= 0,
    ensures
        from <= end < sql.len(),
        sql[end] == ')',
        open_count(sql.subrange(start, end)) == 0,
        forall|i: int|
            start <= i <= end ==> open_count(#[trigger] sql.subrange(start, i)) >= 0,
    decreases sql.len() - from,
{
    let next = sql.subrange(start, from + 1);
    assert(next.drop_last() =~= sql.subrange(start, from));
    if sql[from] == '(' {
        closing_closes(sql, start, from + 1, depth + 1, end);
    } else if sql[from] == ')' {
        if depth > 1 {
            closing_closes(sql, start, from + 1, depth - 1, end);
        }
    } else {
        closing_closes(sql, start, from + 1, depth, end);
    }
}

proof fn found_is_inside(s: Seq<char>, needle: Seq<char>, from: int)
    requires
        0 <= from,
        crate::text::found_from(s, needle, from) is Some,
    ensures
        from <= crate::text::found_from(s, needle, from)->0,
        crate::text::found_from(s, needle, from)->0 + needle.len() <= s.len(),
    decreases s.len() + 1 - from,
{
    if !crate::text::stands_at(s, needle, from) {
        found_is_inside(s, needle, from + 1);
    }
}

/// A table's body is a whole: as many parentheses close in it as open, none
/// closes before it opened, and the one right after it closes the table.
pub proof fn law_a_body_is_balanced(sql: Seq<char>, table: Seq<char>)
    requires
        body_of(sql, table) is Some,
    ensures
        open_count(body_of(sql, table)->0) == 0,
        forall|i: int|
            0 <= i <= body_of(sql, table)->0.len() ==> open_count(
                #[trigger] body_of(sql, table)->0.take(i),
            ) >= 0,
        sql[body_start(sql, table)->0 + body_of(sql, table)->0.len()] == ')',
{
    let start = body_start(sql, table)->0;
    let end = closing(sql, start, 1)->0;
    let body = sql.subrange(start, end);
    if crate::text::found(sql, opening(table, false)) is Some {
        found_is_inside(sql, opening(table, false), 0);
    } else {
        found_is_inside(sql, opening(table, true), 0);
    }
    assert(sql.subrange(start, start) =~= Seq::empty());
    closing_closes(sql, start, start, 1, end);
    assert forall|i: int| 0 <= i <= body.len() implies open_count(#[trigger] body.take(i))
        >= 0 by {
        assert(body.take(i) =~= sql.subrange(start, start + i));
    }
}

} // verus!
