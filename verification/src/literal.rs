//! The literal text of values, as the `surrealdb` crate writes it.
//!
//! Each function here hands plain values to `surrealdb` and takes text back.
//! Their contracts are believed, not proved: each doc comment says what is
//! claimed of the outside function. The claims are made of `surrealdb` as
//! this crate builds it: with its first parser, not the experimental one,
//! and with the limit on nesting that it has by default.

use crate::text::signed_decimal;
use vstd::prelude::*;

verus! {

/// Whether `c` is an ASCII letter, an ASCII digit or an underscore.
pub open spec fn is_word_char(c: char) -> bool {
    ('0' <= c && c <= '9') || ('a' <= c && c <= 'z') || ('A' <= c && c <= 'Z') || c == '_'
}

/// Whether every character of `s` is a word character.
pub open spec fn all_word_chars(s: Seq<char>) -> bool {
    forall|i: int| 0 <= i < s.len() ==> is_word_char(#[trigger] s[i])
}

/// Whether every character of `s` is an ASCII digit. True of the empty text.
pub open spec fn all_digits(s: Seq<char>) -> bool {
    forall|i: int| 0 <= i < s.len() ==> '0' <= #[trigger] s[i] && s[i] <= '9'
}

/// `s` with a backslash put before every occurrence of `c`.
pub open spec fn backslashed(s: Seq<char>, c: char) -> Seq<char>
    decreases s.len(),
{
    if s.len() == 0 {
        Seq::empty()
    } else if s.last() == c {
        backslashed(s.drop_last(), c).push('\\').push(c)
    } else {
        backslashed(s.drop_last(), c).push(s.last())
    }
}

/// A name as it stands in query text: bare where it is made of word
/// characters and not of digits alone, else between `open` and `close`,
/// with every `close` inside it backslashed.
pub open spec fn escaped(s: Seq<char>, open: char, close: char) -> Seq<char> {
    if all_word_chars(s) && !all_digits(s) {
        s
    } else {
        seq![open] + backslashed(s, close) + seq![close]
    }
}

/// A table name as it stands in query text.
pub open spec fn table_literal(name: Seq<char>) -> Seq<char> {
    escaped(name, '`', '`')
}

/// One component of a record identifier as it stands in query text.
pub open spec fn record_part(s: Seq<char>) -> Seq<char> {
    escaped(s, '⟨', '⟩')
}

/// The text that `surrealdb` writes for a string value.
pub uninterp spec fn strand_literal(s: Seq<char>) -> Seq<char>;

/// The text that `surrealdb` writes for the instant `secs` seconds and
/// `nanos` nanoseconds after the Unix epoch; `None` where `chrono` has no
/// such instant.
pub uninterp spec fn datetime_literal(secs: int, nanos: int) -> Option<Seq<char>>;

/// The text that `surrealdb` writes for a duration of `secs` seconds and
/// `nanos` nanoseconds.
pub uninterp spec fn duration_literal(secs: int, nanos: int) -> Seq<char>;

/// What `surrealdb` reads a record identifier's text as: the table, then
/// the key where it is a number, then the key where it is a string. `None`
/// where the text is no record identifier.
pub uninterp spec fn parsed_record(s: Seq<char>) -> Option<
    (Seq<char>, Option<int>, Option<Seq<char>>),
>;

/// The view of an optional number.
pub open spec fn number_view(n: Option<i64>) -> Option<int> {
    match n {
        Some(n) => Some(n as int),
        None => None,
    }
}

/// The view of an optional string.
pub open spec fn text_view(s: Option<String>) -> Option<Seq<char>> {
    match s {
        Some(s) => Some(s@),
        None => None,
    }
}

/// `Display` of `surrealdb::sql::Strand`. It quotes the string, escapes
/// what the quotes need, and puts an `s` in front where the quoted text
/// would read back as a record, a UUID or a datetime. The result is named,
/// not stated.
#[verifier::external_body]
pub(crate) fn strand_text(s: &str) -> (out: String)
    ensures
        out@ == strand_literal(s@),
{
    surrealdb::sql::Strand(s.to_owned()).to_string()
}

/// `Display` of `surrealdb::sql::Table`. It writes the name bare where it
/// holds only ASCII letters, digits and underscores and at least one
/// of them is no digit; else between backticks, each backtick in it
/// backslashed.
#[verifier::external_body]
pub(crate) fn table_text(name: &str) -> (out: String)
    ensures
        out@ == table_literal(name@),
{
    surrealdb::sql::Table(name.to_owned()).to_string()
}

/// `Display` of `surrealdb::sql::Thing` with a number for its key: the
/// table, escaped as a record part between `⟨` and `⟩`, a colon, and the
/// number in decimal.
#[verifier::external_body]
pub(crate) fn record_text_number(table: &str, key: i64) -> (out: String)
    ensures
        out@ == record_part(table@) + seq![':'] + signed_decimal(key as int),
{
    surrealdb::sql::Thing { tb: table.to_owned(), id: surrealdb::sql::Id::Number(key) }.to_string()
}

/// `Display` of `surrealdb::sql::Thing` with a string for its key: the
/// table, a colon and the key, each escaped as a record part between `⟨`
/// and `⟩`.
#[verifier::external_body]
pub(crate) fn record_text_string(table: &str, key: &str) -> (out: String)
    ensures
        out@ == record_part(table@) + seq![':'] + record_part(key@),
{
    surrealdb::sql::Thing {
        tb: table.to_owned(),
        id: surrealdb::sql::Id::String(key.to_owned()),
    }.to_string()
}

/// `surrealdb::sql::thing`, the parser of record identifiers. The result
/// is named, not stated: the table and the key of what was read, the key
/// in the first place where it is a number, in the second where it is a
/// string, in neither where it is of another kind.
#[verifier::external_body]
pub(crate) fn parse_record(s: &str) -> (out: Option<(String, Option<i64>, Option<String>)>)
    ensures
        match out {
            Some((table, number, text)) => parsed_record(s@) == Some(
                (table@, number_view(number), text_view(text)),
            ),
            None => parsed_record(s@) is None,
        },
{
    match surrealdb::sql::thing(s) {
        Ok(surrealdb::sql::Thing { tb, id: surrealdb::sql::Id::Number(n) }) => Some(
            (tb, Some(n), None),
        ),
        Ok(surrealdb::sql::Thing { tb, id: surrealdb::sql::Id::String(k) }) => Some(
            (tb, None, Some(k)),
        ),
        Ok(surrealdb::sql::Thing { tb, .. }) => Some((tb, None, None)),
        Err(_) => None,
    }
}

/// `chrono::DateTime::from_timestamp`, then `Display` of
/// `surrealdb::sql::Datetime`: the instant in RFC 3339 form between
/// quotes. `None` where `chrono` refuses the seconds or the nanoseconds.
/// The result is named, not stated.
#[verifier::external_body]
pub(crate) fn datetime_text(secs: i64, nanos: u32) -> (out: Option<String>)
    ensures
        text_view(out) == datetime_literal(secs as int, nanos as int),
{
    match chrono::DateTime::from_timestamp(secs, nanos) {
        Some(instant) => Some(surrealdb::sql::Datetime(instant).to_string()),
        None => None,
    }
}

/// `Display` of `surrealdb::sql::Duration`: the duration split into
/// years, weeks, days and smaller units, each with its suffix. The result
/// is named, not stated. `std::time::Duration::new` panics where the
/// nanoseconds carry over the seconds' range, so they stay below a second.
#[verifier::external_body]
pub(crate) fn duration_text(secs: u64, nanos: u32) -> (out: String)
    requires
        nanos < 1_000_000_000,
    ensures
        out@ == duration_literal(secs as int, nanos as int),
{
    surrealdb::sql::Duration(std::time::Duration::new(secs, nanos)).to_string()
}

} // verus!
