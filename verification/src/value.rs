//! The values that a query can hold, and their literal text.

use crate::literal::{
    datetime_literal, datetime_text, duration_literal, duration_text, parse_record,
    parsed_record, record_part, record_text_number, record_text_string, strand_literal,
    strand_text, table_literal, table_text,
};
use crate::text::{lacks, lacks_char, push_signed, signed_decimal};
use vstd::prelude::*;

verus! {

/// The key of a record within its table.
#[derive(Debug)]
pub enum RecordKey {
    Number(i64),
    Text(String),
}

/// The mathematical form of a [`RecordKey`].
pub enum RecordKeyView {
    Number(int),
    Text(Seq<char>),
}

impl View for RecordKey {
    type V = RecordKeyView;

    open spec fn view(&self) -> RecordKeyView {
        match self {
            RecordKey::Number(n) => RecordKeyView::Number(*n as int),
            RecordKey::Text(s) => RecordKeyView::Text(s@),
        }
    }
}

impl Clone for RecordKey {
    fn clone(&self) -> (out: Self)
        ensures
            out@ == self@,
    {
        match self {
            RecordKey::Number(n) => RecordKey::Number(*n),
            RecordKey::Text(s) => RecordKey::Text(s.clone()),
        }
    }
}

/// The identifier of one record: a table and a key in it.
#[derive(Debug)]
pub struct SurrealId {
    pub table: String,
    pub key: RecordKey,
}

/// The mathematical form of a [`SurrealId`].
pub struct SurrealIdView {
    pub table: Seq<char>,
    pub key: RecordKeyView,
}

impl View for SurrealId {
    type V = SurrealIdView;

    open spec fn view(&self) -> SurrealIdView {
        SurrealIdView { table: self.table@, key: self.key@ }
    }
}

impl Clone for SurrealId {
    fn clone(&self) -> (out: Self)
        ensures
            out@ == self@,
    {
        SurrealId { table: self.table.clone(), key: self.key.clone() }
    }
}

/// Why a text is no record identifier of this library.
#[derive(Debug)]
pub enum InvalidId {
    /// The text does not read as a record identifier.
    Malformed,
    /// The key is neither a number nor a string.
    UnsupportedKey,
}

/// What a text reads as: the identifier, or why there is none.
pub open spec fn record_of_text(s: Seq<char>) -> Result<SurrealIdView, InvalidId> {
    match parsed_record(s) {
        None => Err(InvalidId::Malformed),
        Some((table, Some(n), _)) => Ok(SurrealIdView { table, key: RecordKeyView::Number(n) }),
        Some((table, None, Some(k))) => Ok(SurrealIdView { table, key: RecordKeyView::Text(k) }),
        Some((_, None, None)) => Err(InvalidId::UnsupportedKey),
    }
}

/// The text of a record identifier.
pub open spec fn record_literal(id: SurrealIdView) -> Seq<char> {
    match id.key {
        RecordKeyView::Number(n) => record_part(id.table) + seq![':'] + signed_decimal(n),
        RecordKeyView::Text(k) => record_part(id.table) + seq![':'] + record_part(k),
    }
}

impl SurrealId {
    /// The identifier of the record `key` of `table`.
    pub fn new(table: &str, key: RecordKey) -> (out: SurrealId)
        ensures
            out@ == (SurrealIdView { table: table@, key: key@ }),
    {
        SurrealId { table: table.to_owned(), key }
    }

    /// Reads an identifier such as `student:5`.
    pub fn try_from(s: &str) -> (out: Result<SurrealId, InvalidId>)
        ensures
            match out {
                Ok(id) => record_of_text(s@) == Ok::<SurrealIdView, InvalidId>(id@),
                Err(e) => record_of_text(s@) == Err::<SurrealIdView, InvalidId>(e),
            },
    {
        Self::from_parsed(parse_record(s))
    }

    /// Sorts what the parser gave: an identifier with a number or a string
    /// for its key, or the reason why there is none.
    pub fn from_parsed(parsed: Option<(String, Option<i64>, Option<String>)>) -> (out: Result<
        SurrealId,
        InvalidId,
    >)
        ensures
            match parsed {
                None => out == Err::<SurrealId, InvalidId>(InvalidId::Malformed),
                Some((table, Some(n), _)) => out matches Ok(id) && id@ == (SurrealIdView {
                    table: table@,
                    key: RecordKeyView::Number(n as int),
                }),
                Some((table, None, Some(k))) => out matches Ok(id) && id@ == (SurrealIdView {
                    table: table@,
                    key: RecordKeyView::Text(k@),
                }),
                Some((_, None, None)) => out == Err::<SurrealId, InvalidId>(
                    InvalidId::UnsupportedKey,
                ),
            },
    {
        match parsed {
            None => Err(InvalidId::Malformed),
            Some((table, Some(n), _)) => Ok(SurrealId { table, key: RecordKey::Number(n) }),
            Some((table, None, Some(k))) => Ok(SurrealId { table, key: RecordKey::Text(k) }),
            Some((_, None, None)) => Err(InvalidId::UnsupportedKey),
        }
    }

    /// The identifier as it stands in query text.
    pub fn to_raw(&self) -> (out: String)
        ensures
            out@ == record_literal(self@),
    {
        match &self.key {
            RecordKey::Number(n) => record_text_number(self.table.as_str(), *n),
            RecordKey::Text(k) => record_text_string(self.table.as_str(), k.as_str()),
        }
    }
}

/// An instant, counted from the Unix epoch.
#[derive(Clone, Copy, Debug)]
pub struct Datetime {
    secs: i64,
    nanos: u32,
}

/// The mathematical form of a [`Datetime`].
pub struct DatetimeView {
    pub secs: int,
    pub nanos: int,
}

impl View for Datetime {
    type V = DatetimeView;

    closed spec fn view(&self) -> DatetimeView {
        DatetimeView { secs: self.secs as int, nanos: self.nanos as int }
    }
}

impl Datetime {
    #[verifier::type_invariant]
    spec fn representable(self) -> bool {
        datetime_literal(self.secs as int, self.nanos as int) is Some
    }

    /// The instant `secs` seconds and `nanos` nanoseconds after the epoch,
    /// where the calendar has it.
    pub fn from_timestamp(secs: i64, nanos: u32) -> (out: Option<Datetime>)
        ensures
            out is Some <==> datetime_literal(secs as int, nanos as int) is Some,
            out matches Some(d) ==> d@ == (DatetimeView { secs: secs as int, nanos: nanos as int }),
    {
        match datetime_text(secs, nanos) {
            Some(_) => Some(Datetime { secs, nanos }),
            None => None,
        }
    }

    /// The whole seconds from the epoch to the instant.
    pub fn timestamp(&self) -> (out: i64)
        ensures
            out == self@.secs,
    {
        self.secs
    }

    /// The nanoseconds of the instant beyond its whole seconds.
    pub fn timestamp_subsec_nanos(&self) -> (out: u32)
        ensures
            out == self@.nanos,
    {
        self.nanos
    }

    /// The instant as it stands in query text.
    pub fn to_raw(&self) -> (out: String)
        ensures
            datetime_literal(self@.secs, self@.nanos) == Some(out@),
    {
        proof {
            use_type_invariant(self);
        }
        match datetime_text(self.secs, self.nanos) {
            Some(text) => text,
            None => String::new(),
        }
    }
}

/// A span of time.
#[derive(Clone, Copy, Debug)]
pub struct Duration {
    secs: u64,
    nanos: u32,
}

/// The mathematical form of a [`Duration`].
pub struct DurationView {
    pub secs: int,
    pub nanos: int,
}

impl View for Duration {
    type V = DurationView;

    closed spec fn view(&self) -> DurationView {
        DurationView { secs: self.secs as int, nanos: self.nanos as int }
    }
}

impl Duration {
    #[verifier::type_invariant]
    spec fn below_a_second(self) -> bool {
        self.nanos < 1_000_000_000
    }

    /// A span of `secs` seconds and `nanos` nanoseconds, where `nanos` is
    /// less than a second.
    pub fn new(secs: u64, nanos: u32) -> (out: Option<Duration>)
        ensures
            out is Some <==> nanos < 1_000_000_000,
            out matches Some(d) ==> d@ == (DurationView { secs: secs as int, nanos: nanos as int }),
    {
        if nanos < 1_000_000_000 {
            Some(Duration { secs, nanos })
        } else {
            None
        }
    }

    /// A span of whole seconds.
    pub fn from_secs(secs: u64) -> (out: Duration)
        ensures
            out@ == (DurationView { secs: secs as int, nanos: 0 }),
    {
        Duration { secs, nanos: 0 }
    }

    /// The whole seconds of the span.
    pub fn as_secs(&self) -> (out: u64)
        ensures
            out == self@.secs,
    {
        self.secs
    }

    /// The nanoseconds of the span beyond its whole seconds: less than a
    /// second.
    pub fn subsec_nanos(&self) -> (out: u32)
        ensures
            out == self@.nanos,
            out < 1_000_000_000,
    {
        proof {
            use_type_invariant(self);
        }
        self.nanos
    }

    /// The span as it stands in query text.
    pub fn to_raw(&self) -> (out: String)
        ensures
            out@ == duration_literal(self@.secs, self@.nanos),
    {
        proof {
            use_type_invariant(self);
        }
        duration_text(self.secs, self.nanos)
    }
}

/// A value that a query binds to a placeholder.
#[derive(Debug)]
pub enum Value {
    /// A whole number.
    Number(i64),
    /// A string.
    Text(String),
    /// A reference to a field, by its name.
    Field(String),
    /// A reference to a parameter of the caller, by its name.
    Param(String),
    /// A table, by its name.
    Table(String),
    /// One record.
    Record(SurrealId),
    /// An instant.
    Datetime(Datetime),
    /// A span of time.
    Duration(Duration),
}

/// The mathematical form of a [`Value`].
pub enum ValueView {
    Number(int),
    Text(Seq<char>),
    Field(Seq<char>),
    Param(Seq<char>),
    Table(Seq<char>),
    Record(SurrealIdView),
    Datetime(DatetimeView),
    Duration(DurationView),
}

impl View for Value {
    type V = ValueView;

    open spec fn view(&self) -> ValueView {
        match self {
            Value::Number(n) => ValueView::Number(*n as int),
            Value::Text(s) => ValueView::Text(s@),
            Value::Field(s) => ValueView::Field(s@),
            Value::Param(s) => ValueView::Param(s@),
            Value::Table(s) => ValueView::Table(s@),
            Value::Record(id) => ValueView::Record(id@),
            Value::Datetime(d) => ValueView::Datetime(d@),
            Value::Duration(d) => ValueView::Duration(d@),
        }
    }
}

/// The literal text of a value, as raw rendering writes it.
pub open spec fn value_literal(v: ValueView) -> Seq<char> {
    match v {
        ValueView::Number(n) => signed_decimal(n),
        ValueView::Text(s) => strand_literal(s),
        ValueView::Field(s) => s,
        ValueView::Param(s) => seq!['$'] + s,
        ValueView::Table(s) => table_literal(s),
        ValueView::Record(id) => record_literal(id),
        ValueView::Datetime(d) => match datetime_literal(d.secs, d.nanos) {
            Some(text) => text,
            None => Seq::empty(),
        },
        ValueView::Duration(d) => duration_literal(d.secs, d.nanos),
    }
}

/// Whether the database can take the value as the value of a
/// placeholder. Its strings, its names of fields and parameters and its
/// tables hold no NUL character; every other value can be bound.
pub open spec fn bindable(v: ValueView) -> bool {
    match v {
        ValueView::Text(s) => lacks(s, '\0'),
        ValueView::Field(s) => lacks(s, '\0'),
        ValueView::Param(s) => lacks(s, '\0'),
        ValueView::Table(s) => lacks(s, '\0'),
        _ => true,
    }
}

impl Clone for Value {
    fn clone(&self) -> (out: Self)
        ensures
            out@ == self@,
    {
        match self {
            Value::Number(n) => Value::Number(*n),
            Value::Text(s) => Value::Text(s.clone()),
            Value::Field(s) => Value::Field(s.clone()),
            Value::Param(s) => Value::Param(s.clone()),
            Value::Table(s) => Value::Table(s.clone()),
            Value::Record(id) => Value::Record(id.clone()),
            Value::Datetime(d) => Value::Datetime(*d),
            Value::Duration(d) => Value::Duration(*d),
        }
    }
}

impl Value {
    /// Appends the literal text of the value.
    pub fn push_raw(&self, out: &mut String)
        ensures
            final(out)@ == old(out)@ + value_literal(self@),
    {
        match self {
            Value::Number(n) => {
                push_signed(out, *n);
            },
            Value::Text(s) => {
                let text = strand_text(s.as_str());
                out.append(text.as_str());
            },
            Value::Field(s) => {
                out.append(s.as_str());
            },
            Value::Param(s) => {
                proof {
                    reveal_strlit("$");
                }
                out.append("$");
                out.append(s.as_str());
                assert(out@ =~= old(out)@ + (seq!['$'] + s@));
            },
            Value::Table(s) => {
                let text = table_text(s.as_str());
                out.append(text.as_str());
            },
            Value::Record(id) => {
                let text = id.to_raw();
                out.append(text.as_str());
            },
            Value::Datetime(d) => {
                let text = d.to_raw();
                out.append(text.as_str());
            },
            Value::Duration(d) => {
                let text = d.to_raw();
                out.append(text.as_str());
            },
        }
    }

    /// Whether the database can take the value as the value of a
    /// placeholder.
    pub fn is_bindable(&self) -> (out: bool)
        ensures
            out == bindable(self@),
    {
        match self {
            Value::Text(s) => lacks_char(s.as_str(), '\0'),
            Value::Field(s) => lacks_char(s.as_str(), '\0'),
            Value::Param(s) => lacks_char(s.as_str(), '\0'),
            Value::Table(s) => lacks_char(s.as_str(), '\0'),
            _ => true,
        }
    }

    /// The literal text of the value.
    pub fn to_raw(&self) -> (out: String)
        ensures
            out@ == value_literal(self@),
    {
        let mut out = String::new();
        self.push_raw(&mut out);
        assert(out@ =~= value_literal(self@));
        out
    }
}

impl From<i64> for Value {
    /// A whole number as a value.
    fn from(value: i64) -> (out: Value)
        ensures
            out == Value::Number(value),
    {
        Value::Number(value)
    }
}

impl vstd::std_specs::convert::FromSpecImpl<i64> for Value {
    open spec fn obeys_from_spec() -> bool {
        true
    }

    open spec fn from_spec(value: i64) -> Value {
        Value::Number(value)
    }
}

impl From<String> for Value {
    /// A string as a value.
    fn from(value: String) -> (out: Value)
        ensures
            out == Value::Text(value),
    {
        Value::Text(value)
    }
}

impl vstd::std_specs::convert::FromSpecImpl<String> for Value {
    open spec fn obeys_from_spec() -> bool {
        true
    }

    open spec fn from_spec(value: String) -> Value {
        Value::Text(value)
    }
}

impl From<&str> for Value {
    /// A string as a value.
    fn from(value: &str) -> (out: Value)
        ensures
            out@ == ValueView::Text(value@),
    {
        Value::Text(value.to_owned())
    }
}

impl vstd::std_specs::convert::FromSpecImpl<&str> for Value {
    open spec fn obeys_from_spec() -> bool {
        false
    }

    open spec fn from_spec(value: &str) -> Value {
        arbitrary()
    }
}

impl From<SurrealId> for Value {
    /// A record identifier as a value.
    fn from(value: SurrealId) -> (out: Value)
        ensures
            out == Value::Record(value),
    {
        Value::Record(value)
    }
}

impl vstd::std_specs::convert::FromSpecImpl<SurrealId> for Value {
    open spec fn obeys_from_spec() -> bool {
        true
    }

    open spec fn from_spec(value: SurrealId) -> Value {
        Value::Record(value)
    }
}

impl From<Datetime> for Value {
    /// An instant as a value.
    fn from(value: Datetime) -> (out: Value)
        ensures
            out == Value::Datetime(value),
    {
        Value::Datetime(value)
    }
}

impl vstd::std_specs::convert::FromSpecImpl<Datetime> for Value {
    open spec fn obeys_from_spec() -> bool {
        true
    }

    open spec fn from_spec(value: Datetime) -> Value {
        Value::Datetime(value)
    }
}

impl From<Duration> for Value {
    /// A span of time as a value.
    fn from(value: Duration) -> (out: Value)
        ensures
            out == Value::Duration(value),
    {
        Value::Duration(value)
    }
}

impl vstd::std_specs::convert::FromSpecImpl<Duration> for Value {
    open spec fn obeys_from_spec() -> bool {
        true
    }

    open spec fn from_spec(value: Duration) -> Value {
        Value::Duration(value)
    }
}

} // verus!
