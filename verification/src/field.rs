//! Names that a query refers to: fields, parameters and tables.

use crate::literal::{table_literal, table_text};
use crate::value::{Value, ValueView};
use vstd::prelude::*;

verus! {

/// A field of a record, by its name or path.
#[derive(Debug)]
pub struct Field {
    name: String,
}

impl View for Field {
    type V = Seq<char>;

    closed spec fn view(&self) -> Seq<char> {
        self.name@
    }
}

impl Clone for Field {
    fn clone(&self) -> (out: Self)
        ensures
            out@ == self@,
    {
        Field { name: self.name.clone() }
    }
}

impl Field {
    /// The field called `name`.
    pub fn new(name: &str) -> (out: Field)
        ensures
            out@ == name@,
    {
        Field { name: name.to_owned() }
    }

    /// The name as it stands in query text.
    pub fn build(&self) -> (out: String)
        ensures
            out@ == self@,
    {
        self.name.clone()
    }

    /// The name.
    pub fn as_str(&self) -> (out: &str)
        ensures
            out@ == self@,
    {
        self.name.as_str()
    }

    /// The field as a value: a reference to it.
    pub fn to_value(&self) -> (out: Value)
        ensures
            out@ == ValueView::Field(self@),
    {
        Value::Field(self.name.clone())
    }
}

/// A parameter that the caller of the query supplies, by its name.
#[derive(Debug)]
pub struct Param {
    name: String,
}

impl View for Param {
    type V = Seq<char>;

    closed spec fn view(&self) -> Seq<char> {
        self.name@
    }
}

impl Param {
    /// The parameter called `name`, written `$name` in query text.
    pub fn new(name: &str) -> (out: Param)
        ensures
            out@ == name@,
    {
        Param { name: name.to_owned() }
    }

    /// The parameter as it stands in query text.
    pub fn build(&self) -> (out: String)
        ensures
            out@ == seq!['$'] + self@,
    {
        proof {
            reveal_strlit("$");
        }
        let mut out = String::from_str("$");
        out.append(self.name.as_str());
        assert(out@ =~= seq!['$'] + self@);
        out
    }

    /// The parameter as a value: a reference to it.
    pub fn to_value(&self) -> (out: Value)
        ensures
            out@ == ValueView::Param(self@),
    {
        Value::Param(self.name.clone())
    }
}

/// A table, by its name.
#[derive(Debug)]
pub struct Table {
    name: String,
}

impl View for Table {
    type V = Seq<char>;

    closed spec fn view(&self) -> Seq<char> {
        self.name@
    }
}

impl Clone for Table {
    fn clone(&self) -> (out: Self)
        ensures
            out@ == self@,
    {
        Table { name: self.name.clone() }
    }
}

impl Table {
    /// The table called `name`.
    pub fn new(name: &str) -> (out: Table)
        ensures
            out@ == name@,
    {
        Table { name: name.to_owned() }
    }

    /// The name as it stands in query text, escaped where it must be.
    pub fn build(&self) -> (out: String)
        ensures
            out@ == table_literal(self@),
    {
        table_text(self.name.as_str())
    }

    /// The name.
    pub fn as_str(&self) -> (out: &str)
        ensures
            out@ == self@,
    {
        self.name.as_str()
    }

    /// The table as a value.
    pub fn to_value(&self) -> (out: Value)
        ensures
            out@ == ValueView::Table(self@),
    {
        Value::Table(self.name.clone())
    }
}

/// The views of a list of tables.
pub open spec fn table_views(tables: Seq<Table>) -> Seq<Seq<char>> {
    tables.map_values(|t: Table| t@)
}

/// The views of a list of fields.
pub open spec fn field_views(fields: Seq<Field>) -> Seq<Seq<char>> {
    fields.map_values(|f: Field| f@)
}

/// What can stand where a number is expected: a number, or a field or a
/// parameter that holds one.
#[derive(Debug)]
pub enum NumberLike {
    Number(i64),
    Field(Field),
    Param(Param),
}

/// The value that a number-like stands for.
pub open spec fn number_like_value(n: NumberLike) -> ValueView {
    match n {
        NumberLike::Number(n) => ValueView::Number(n as int),
        NumberLike::Field(f) => ValueView::Field(f@),
        NumberLike::Param(p) => ValueView::Param(p@),
    }
}

impl NumberLike {
    /// The number-like as a value.
    pub fn to_value(&self) -> (out: Value)
        ensures
            out@ == number_like_value(*self),
    {
        match self {
            NumberLike::Number(n) => Value::Number(*n),
            NumberLike::Field(f) => f.to_value(),
            NumberLike::Param(p) => p.to_value(),
        }
    }
}

impl From<&Field> for Value {
    /// A reference to a field as a value.
    fn from(value: &Field) -> (out: Value)
        ensures
            out@ == ValueView::Field(value@),
    {
        value.to_value()
    }
}

impl vstd::std_specs::convert::FromSpecImpl<&Field> for Value {
    open spec fn obeys_from_spec() -> bool {
        false
    }

    open spec fn from_spec(value: &Field) -> Value {
        arbitrary()
    }
}

impl From<&Param> for Value {
    /// A reference to a parameter as a value.
    fn from(value: &Param) -> (out: Value)
        ensures
            out@ == ValueView::Param(value@),
    {
        value.to_value()
    }
}

impl vstd::std_specs::convert::FromSpecImpl<&Param> for Value {
    open spec fn obeys_from_spec() -> bool {
        false
    }

    open spec fn from_spec(value: &Param) -> Value {
        arbitrary()
    }
}

impl From<&Table> for Value {
    /// A table as a value.
    fn from(value: &Table) -> (out: Value)
        ensures
            out@ == ValueView::Table(value@),
    {
        value.to_value()
    }
}

impl vstd::std_specs::convert::FromSpecImpl<&Table> for Value {
    open spec fn obeys_from_spec() -> bool {
        false
    }

    open spec fn from_spec(value: &Table) -> Value {
        arbitrary()
    }
}

impl From<i64> for NumberLike {
    /// A number where a number is expected.
    fn from(value: i64) -> (out: NumberLike)
        ensures
            out == NumberLike::Number(value),
    {
        NumberLike::Number(value)
    }
}

impl vstd::std_specs::convert::FromSpecImpl<i64> for NumberLike {
    open spec fn obeys_from_spec() -> bool {
        true
    }

    open spec fn from_spec(value: i64) -> NumberLike {
        NumberLike::Number(value)
    }
}

impl From<Field> for NumberLike {
    /// A field where a number is expected.
    fn from(value: Field) -> (out: NumberLike)
        ensures
            out == NumberLike::Field(value),
    {
        NumberLike::Field(value)
    }
}

impl vstd::std_specs::convert::FromSpecImpl<Field> for NumberLike {
    open spec fn obeys_from_spec() -> bool {
        true
    }

    open spec fn from_spec(value: Field) -> NumberLike {
        NumberLike::Field(value)
    }
}

impl From<Param> for NumberLike {
    /// A parameter where a number is expected.
    fn from(value: Param) -> (out: NumberLike)
        ensures
            out == NumberLike::Param(value),
    {
        NumberLike::Param(value)
    }
}

impl vstd::std_specs::convert::FromSpecImpl<Param> for NumberLike {
    open spec fn obeys_from_spec() -> bool {
        true
    }

    open spec fn from_spec(value: Param) -> NumberLike {
        NumberLike::Param(value)
    }
}

} // verus!
