//! What a schema's text says of a table and of its columns.

use crate::text::Separator;
use vstd::prelude::*;

verus! {

/// A table's definition begins with its name, bare or in double quotes.
pub proof fn law_a_table_opens_with_its_name(table: Seq<char>)
    ensures
        super::opening(table, false) == "CREATE TABLE "@ + table + " ("@,
        super::opening(table, true) == "CREATE TABLE \""@ + table + "\" ("@,
{
}

proof fn the_close_is_found(sql: Seq<char>, start: int, from: int, depth: int, end: int)
    requires
        0 <= start <= from <= end < sql.len(),
        depth >= 1,
        depth == 1 + super::open_count(sql.subrange(start, from)),
        super::open_count(sql.subrange(start, end)) == 0,
        sql[end] == ')',
        forall|i: int|
            start <= i <= end ==> super::open_count(#[trigger] sql.subrange(start, i)) >= 0,
    ensures
        super::closing(sql, from, depth) == Some(end),
    decreases end - from,
{
    if from < end {
        let next = sql.subrange(start, from + 1);
        assert(next.drop_last() =~= sql.subrange(start, from));
        assert(super::open_count(next) >= 0);
        if sql[from] == '(' {
            the_close_is_found(sql, start, from + 1, depth + 1, end);
        } else if sql[from] == ')' {
            the_close_is_found(sql, start, from + 1, depth - 1, end);
        } else {
            the_close_is_found(sql, start, from + 1, depth, end);
        }
    }
}

/// A table's body is what stands between its opening and the parenthesis that
/// closes it, whatever is nested inside. The bare opening is looked for first,
/// and each where it first stands.
pub proof fn law_a_body_ends_where_its_table_closes(
    sql: Seq<char>,
    table: Seq<char>,
    quoted: bool,
    end: int,
)
    requires
        ({
            let at = crate::text::found(sql, super::opening(table, quoted));
            let start = at->0 + super::opening(table, quoted).len();
            &&& quoted ==> crate::text::found(sql, super::opening(table, false)) is None
            &&& at is Some
            &&& start <= end < sql.len()
            &&& sql[end] == ')'
            &&& super::open_count(sql.subrange(start, end)) == 0
            &&& forall|i: int|
                start <= i <= end ==> super::open_count(#[trigger] sql.subrange(start, i)) >= 0
        }),
    ensures
        ({
            let start = crate::text::found(sql, super::opening(table, quoted))->0
                + super::opening(table, quoted).len();
            super::body_of(sql, table) == Some(sql.subrange(start, end))
        }),
{
    let at = crate::text::found(sql, super::opening(table, quoted))->0;
    let start = at + super::opening(table, quoted).len();
    crate::text::laws::law_a_text_is_found_where_it_first_stands(
        sql,
        super::opening(table, quoted),
    );
    assert(sql.subrange(start, start) =~= Seq::empty());
    the_close_is_found(sql, start, start, 1, end);
}

/// A table the schema does not open has no body.
pub proof fn law_an_unknown_table_has_no_body(sql: Seq<char>, table: Seq<char>)
    requires
        crate::text::found(sql, super::opening(table, false)) is None,
        crate::text::found(sql, super::opening(table, true)) is None,
    ensures
        super::body_of(sql, table) is None,
{
}

/// Parentheses are counted one by one: an opening one adds one, a closing one
/// takes one away, and nothing else counts.
pub proof fn law_parentheses_are_counted(s: Seq<char>, c: char)
    ensures
        super::open_count(Seq::<char>::empty()) == 0,
        c == '(' ==> super::open_count(s.push(c)) == super::open_count(s) + 1,
        c == ')' ==> super::open_count(s.push(c)) == super::open_count(s) - 1,
        c != '(' && c != ')' ==> super::open_count(s.push(c)) == super::open_count(s),
{
    assert(s.push(c).drop_last() =~= s);
}

/// A value is what stands between single quotes, and a token that is not quoted
/// is no value.
pub proof fn law_a_value_stands_between_quotes(token: Seq<char>)
    ensures
        super::unquoted(token) is Some <==> token.len() >= 2 && token[0] == '\'' && token.last()
            == '\'',
        super::unquoted(token) is Some ==> token == seq!['\''] + super::unquoted(token)->0 + seq![
            '\'',
        ],
{
    if super::unquoted(token) is Some {
        assert(token =~= seq!['\''] + super::unquoted(token)->0 + seq!['\'']);
    }
}

/// Values are read token by token, without the white space around them, in
/// their order; a token that is no value is passed over.
pub proof fn law_values_are_read_token_by_token(tokens: Seq<Seq<char>>, more: Seq<char>)
    ensures
        ({
            let value = super::unquoted(crate::text::trimmed(more));
            let longer = super::values_among(tokens.push(more), tokens.len() as int + 1);
            &&& super::values_among(Seq::empty(), 0).len() == 0
            &&& value is Some ==> longer == super::values_among(
                tokens,
                tokens.len() as int,
            ).push(value->0)
            &&& value is None ==> longer == super::values_among(tokens, tokens.len() as int)
        }),
{
    the_first_are_read_alike(tokens, tokens.push(more), tokens.len() as int);
}

proof fn the_first_are_read_alike(one: Seq<Seq<char>>, other: Seq<Seq<char>>, first: int)
    requires
        first <= one.len(),
        first <= other.len(),
        forall|i: int| 0 <= i < first ==> #[trigger] one[i] == other[i],
    ensures
        super::values_among(one, first) == super::values_among(other, first),
    decreases first,
{
    if first > 0 {
        assert(one[first - 1] == other[first - 1]);
        the_first_are_read_alike(one, other, first - 1);
    }
}

proof fn the_first_close(s: Seq<char>, from: int, end: int)
    requires
        0 <= from <= end <= s.len(),
        forall|j: int| from <= j < end ==> #[trigger] s[j] != ')',
        end < s.len() ==> s[end] == ')',
    ensures
        super::first_close(s, from) == end,
    decreases end - from,
{
    if from < end {
        assert(s[from] != ')');
        the_first_close(s, from + 1, end);
    }
}

/// The values of a column are those of the list right after the first place
/// that names it, up to the first closing parenthesis, token by token between
/// commas. A list without a value, or without an end, is none.
pub proof fn law_a_columns_values_are_its_list(body: Seq<char>, column: Seq<char>, end: int)
    requires
        ({
            let at = crate::text::found(body, column + " IN ("@);
            let start = at->0 + (column + " IN ("@).len();
            &&& at is Some
            &&& start <= end <= body.len()
            &&& forall|j: int| start <= j < end ==> #[trigger] body[j] != ')'
            &&& end < body.len() ==> body[end] == ')'
        }),
    ensures
        ({
            let start = crate::text::found(body, column + " IN ("@)->0 + (column
                + " IN ("@).len();
            let tokens = crate::text::pieces(body.subrange(start, end), Separator::Comma);
            let values = super::values_among(tokens, tokens.len() as int);
            &&& end == body.len() || values.len() == 0 ==> super::values_of(body, column) is None
            &&& end < body.len() && values.len() > 0 ==> super::values_of(body, column) == Some(
                values,
            )
        }),
{
    let start = crate::text::found(body, column + " IN ("@)->0 + (column + " IN ("@).len();
    crate::text::laws::law_a_text_is_found_where_it_first_stands(body, column + " IN ("@);
    the_first_close(body, start, end);
}

/// A column that no list is given for has no values.
pub proof fn law_an_unlisted_column_has_no_values(body: Seq<char>, column: Seq<char>)
    requires
        crate::text::found(body, column + " IN ("@) is None,
    ensures
        super::values_of(body, column) is None,
{
}

} // verus!
