//! Calls of the time functions of the query language.

use crate::binding::{
    binding_problems, binding_views, Binding, BindingAllocator, BindingView,
};
use crate::error::{clone_errors, error_views, QueryError, QueryErrorView};
use crate::field::Field;
use crate::fragment::{
    numbered_text, param_text, raw_text, slot_part, slots, text_part, Fragment, PartView,
};
use crate::value::{Datetime, Duration, Value, ValueView};
use vstd::prelude::*;

verus! {

/// What can stand where an instant is expected: an instant, or a field
/// that holds one.
#[derive(Debug)]
pub enum DatetimeLike {
    Datetime(Datetime),
    Field(Field),
}

/// What can stand where a span of time is expected: a span, or a field
/// that holds one.
#[derive(Debug)]
pub enum DurationLike {
    Duration(Duration),
    Field(Field),
}

/// The value that a datetime-like stands for.
pub open spec fn datetime_like_value(d: DatetimeLike) -> ValueView {
    match d {
        DatetimeLike::Datetime(d) => ValueView::Datetime(d@),
        DatetimeLike::Field(f) => ValueView::Field(f@),
    }
}

/// The value that a duration-like stands for.
pub open spec fn duration_like_value(d: DurationLike) -> ValueView {
    match d {
        DurationLike::Duration(d) => ValueView::Duration(d@),
        DurationLike::Field(f) => ValueView::Field(f@),
    }
}

impl DatetimeLike {
    /// The datetime-like as a value.
    pub fn to_value(&self) -> (out: Value)
        ensures
            out@ == datetime_like_value(*self),
    {
        match self {
            DatetimeLike::Datetime(d) => Value::Datetime(*d),
            DatetimeLike::Field(f) => f.to_value(),
        }
    }
}

impl DurationLike {
    /// The duration-like as a value.
    pub fn to_value(&self) -> (out: Value)
        ensures
            out@ == duration_like_value(*self),
    {
        match self {
            DurationLike::Duration(d) => Value::Duration(*d),
            DurationLike::Field(f) => f.to_value(),
        }
    }
}

/// The call of a function, with its arguments bound.
#[derive(Debug)]
pub struct Function {
    body: Fragment,
    errors: Vec<QueryError>,
}

impl View for Function {
    type V = Seq<PartView>;

    closed spec fn view(&self) -> Seq<PartView> {
        self.body@
    }
}

impl Function {
    /// The problems of the arguments, in their order.
    pub closed spec fn problems(&self) -> Seq<QueryErrorView> {
        error_views(self.errors@)
    }

    /// The problems of the arguments, in their order.
    pub fn get_errors(&self) -> (out: Vec<QueryError>)
        ensures
            error_views(out@) == self.problems(),
    {
        clone_errors(&self.errors)
    }

    /// The parameterized text of the call.
    pub fn build(&self) -> (out: String)
        ensures
            out@ == param_text(self@),
    {
        self.body.build()
    }

    /// The raw text of the call.
    pub fn to_raw(&self) -> (out: String)
        ensures
            out@ == raw_text(self@),
    {
        self.body.to_raw()
    }

    /// The parameterized text, with the placeholders numbered anew from 1.
    pub fn fine_tune_params(&self) -> (out: String)
        ensures
            out@ == numbered_text(self@, 1),
    {
        self.body.fine_tune_params()
    }

    /// The bound arguments, in their order.
    pub fn get_bindings(&self) -> (out: Vec<Binding>)
        ensures
            binding_views(out@) == slots(self@),
    {
        self.body.get_bindings()
    }
}

/// `time::day(datetime)`: the day of an instant as a number. The argument
/// is bound to a new placeholder; where it cannot be bound, that is
/// recorded as a problem.
pub fn day_fn(alloc: &mut BindingAllocator, datetime: DatetimeLike) -> (out: Function)
    requires
        old(alloc).room() >= 1,
    ensures
        out@ == text_part("time::day("@) + slot_part(
            BindingView { id: old(alloc).next_id(), value: datetime_like_value(datetime) },
        ) + text_part(")"@),
        out.problems() == binding_problems(
            BindingView { id: old(alloc).next_id(), value: datetime_like_value(datetime) },
        ),
        final(alloc).next_id() == old(alloc).next_id() + 1,
{
    let binding = alloc.new_binding(datetime.to_value());
    let mut errors: Vec<QueryError> = Vec::new();
    binding.validate(&mut errors);
    let mut body = Fragment::text("time::day(");
    body.push_binding(binding);
    body.push_text(")");
    let out = Function { body, errors };
    assert(out.problems() =~= binding_problems(
        BindingView { id: old(alloc).next_id(), value: datetime_like_value(datetime) },
    ));
    out
}

/// `time::floor(datetime, duration)`: an instant rounded down to a
/// multiple of a span. The arguments are bound to new placeholders, the
/// instant first; where one cannot be bound, that is recorded as a
/// problem.
pub fn floor_fn(alloc: &mut BindingAllocator, datetime: DatetimeLike, duration: DurationLike) -> (out:
    Function)
    requires
        old(alloc).room() >= 2,
    ensures
        out@ == text_part("time::floor("@) + slot_part(
            BindingView { id: old(alloc).next_id(), value: datetime_like_value(datetime) },
        ) + text_part(", "@) + slot_part(
            BindingView {
                id: old(alloc).next_id() + 1,
                value: duration_like_value(duration),
            },
        ) + text_part(")"@),
        out.problems() == binding_problems(
            BindingView { id: old(alloc).next_id(), value: datetime_like_value(datetime) },
        ) + binding_problems(
            BindingView {
                id: old(alloc).next_id() + 1,
                value: duration_like_value(duration),
            },
        ),
        final(alloc).next_id() == old(alloc).next_id() + 2,
{
    let datetime_binding = alloc.new_binding(datetime.to_value());
    let duration_binding = alloc.new_binding(duration.to_value());
    let mut errors: Vec<QueryError> = Vec::new();
    datetime_binding.validate(&mut errors);
    duration_binding.validate(&mut errors);
    let mut body = Fragment::text("time::floor(");
    body.push_binding(datetime_binding);
    body.push_text(", ");
    body.push_binding(duration_binding);
    body.push_text(")");
    let out = Function { body, errors };
    assert(out.problems() =~= binding_problems(
        BindingView { id: old(alloc).next_id(), value: datetime_like_value(datetime) },
    ) + binding_problems(
        BindingView { id: old(alloc).next_id() + 1, value: duration_like_value(duration) },
    ));
    out
}

impl From<Datetime> for DatetimeLike {
    /// An instant where an instant is expected.
    fn from(value: Datetime) -> (out: DatetimeLike)
        ensures
            out == DatetimeLike::Datetime(value),
    {
        DatetimeLike::Datetime(value)
    }
}

impl vstd::std_specs::convert::FromSpecImpl<Datetime> for DatetimeLike {
    open spec fn obeys_from_spec() -> bool {
        true
    }

    open spec fn from_spec(value: Datetime) -> DatetimeLike {
        DatetimeLike::Datetime(value)
    }
}

impl From<Field> for DatetimeLike {
    /// A field where an instant is expected.
    fn from(value: Field) -> (out: DatetimeLike)
        ensures
            out == DatetimeLike::Field(value),
    {
        DatetimeLike::Field(value)
    }
}

impl vstd::std_specs::convert::FromSpecImpl<Field> for DatetimeLike {
    open spec fn obeys_from_spec() -> bool {
        true
    }

    open spec fn from_spec(value: Field) -> DatetimeLike {
        DatetimeLike::Field(value)
    }
}

impl From<Duration> for DurationLike {
    /// A span where a span of time is expected.
    fn from(value: Duration) -> (out: DurationLike)
        ensures
            out == DurationLike::Duration(value),
    {
        DurationLike::Duration(value)
    }
}

impl vstd::std_specs::convert::FromSpecImpl<Duration> for DurationLike {
    open spec fn obeys_from_spec() -> bool {
        true
    }

    open spec fn from_spec(value: Duration) -> DurationLike {
        DurationLike::Duration(value)
    }
}

impl From<Field> for DurationLike {
    /// A field where a span of time is expected.
    fn from(value: Field) -> (out: DurationLike)
        ensures
            out == DurationLike::Field(value),
    {
        DurationLike::Field(value)
    }
}

impl vstd::std_specs::convert::FromSpecImpl<Field> for DurationLike {
    open spec fn obeys_from_spec() -> bool {
        true
    }

    open spec fn from_spec(value: Field) -> DurationLike {
        DurationLike::Field(value)
    }
}

} // verus!
