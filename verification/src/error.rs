//! Problems found while a query is assembled. They are recorded, never
//! raised: assembling goes on, and the caller looks at the list before the
//! query runs.

use crate::binding::{placeholder, push_numbered_placeholder};
use vstd::prelude::*;

verus! {

/// A problem recorded while a query was assembled.
#[derive(Debug)]
pub enum QueryError {
    /// A record identifier was addressed through a table that is not its
    /// own.
    IdTableMismatch { expected: String, actual: String },
    /// The value behind the placeholder with this number cannot be bound:
    /// it holds a NUL character, which no string, name or table of the
    /// database may hold.
    UnbindableValue { placeholder: u64 },
}

/// The mathematical form of a [`QueryError`].
pub enum QueryErrorView {
    IdTableMismatch { expected: Seq<char>, actual: Seq<char> },
    UnbindableValue { placeholder: nat },
}

impl View for QueryError {
    type V = QueryErrorView;

    open spec fn view(&self) -> QueryErrorView {
        match self {
            QueryError::IdTableMismatch { expected, actual } => QueryErrorView::IdTableMismatch {
                expected: expected@,
                actual: actual@,
            },
            QueryError::UnbindableValue { placeholder } => QueryErrorView::UnbindableValue {
                placeholder: *placeholder as nat,
            },
        }
    }
}

impl Clone for QueryError {
    fn clone(&self) -> (out: Self)
        ensures
            out@ == self@,
    {
        match self {
            QueryError::IdTableMismatch { expected, actual } => QueryError::IdTableMismatch {
                expected: expected.clone(),
                actual: actual.clone(),
            },
            QueryError::UnbindableValue { placeholder } => QueryError::UnbindableValue {
                placeholder: *placeholder,
            },
        }
    }
}

/// What a problem says in words.
pub open spec fn error_message(e: QueryErrorView) -> Seq<char> {
    match e {
        QueryErrorView::IdTableMismatch { expected, actual } => "invalid id: it belongs to table "@
            + actual + ", not to table "@ + expected,
        QueryErrorView::UnbindableValue { placeholder: id } => "invalid value: the value of "@
            + placeholder(id) + " holds a NUL character"@,
    }
}

impl QueryError {
    /// The problem in words.
    pub fn message(&self) -> (out: String)
        ensures
            out@ == error_message(self@),
    {
        match self {
            QueryError::IdTableMismatch { expected, actual } => {
                let mut out = String::from_str("invalid id: it belongs to table ");
                out.append(actual.as_str());
                out.append(", not to table ");
                out.append(expected.as_str());
                out
            },
            QueryError::UnbindableValue { placeholder } => {
                let mut out = String::from_str("invalid value: the value of ");
                push_numbered_placeholder(&mut out, *placeholder);
                out.append(" holds a NUL character");
                out
            },
        }
    }
}

/// The views of a list of problems.
pub open spec fn error_views(errors: Seq<QueryError>) -> Seq<QueryErrorView> {
    errors.map_values(|e: QueryError| e@)
}

/// Appends a copy of each problem of `more` to `errors`.
pub fn extend_errors(errors: &mut Vec<QueryError>, more: &Vec<QueryError>)
    ensures
        error_views(final(errors)@) == error_views(old(errors)@) + error_views(more@),
{
    let mut i: usize = 0;
    while i < more.len()
        invariant
            i <= more.len(),
            error_views(errors@) == error_views(old(errors)@) + error_views(more@).take(i as int),
        decreases more.len() - i,
    {
        let ghost before = errors@;
        let copy = more[i].clone();
        errors.push(copy);
        assert(error_views(errors@) =~= error_views(before).push(copy@));
        assert(error_views(more@).take(i as int + 1) =~= error_views(more@).take(i as int).push(
            more[i as int]@,
        ));
        i = i + 1;
        assert(error_views(errors@) =~= error_views(old(errors)@) + error_views(more@).take(
            i as int,
        ));
    }
    assert(error_views(more@).take(i as int) =~= error_views(more@));
}

/// A copy of a list of problems.
pub fn clone_errors(errors: &Vec<QueryError>) -> (out: Vec<QueryError>)
    ensures
        error_views(out@) == error_views(errors@),
{
    let mut out: Vec<QueryError> = Vec::new();
    extend_errors(&mut out, errors);
    assert(error_views(out@) =~= error_views(errors@));
    out
}

/// Appends the problems of `more` to `errors`.
pub fn append_errors(errors: &mut Vec<QueryError>, more: Vec<QueryError>)
    ensures
        error_views(final(errors)@) == error_views(old(errors)@) + error_views(more@),
{
    let mut more = more;
    let ghost added = more@;
    errors.append(&mut more);
    assert(error_views(errors@) =~= error_views(old(errors)@) + error_views(added));
}

/// A query that must not run: problems were recorded while it was
/// assembled.
#[derive(Debug)]
pub struct InvalidQuery {
    pub errors: Vec<QueryError>,
}

} // verus!
