//! Addressing in the graph: what one step of a traversal selects.
//!
//! A clause is one addressing decision: every element, the last one, the
//! one at an index, those that meet a condition, one record, the result of
//! a statement, or any of several edge tables. An arrow and a name can be
//! put before it.

use crate::binding::{
    binding_problems, binding_views, Binding, BindingAllocator, BindingView,
};
use crate::error::{clone_errors, error_views, QueryError, QueryErrorView};
use crate::field::{number_like_value, table_views, NumberLike, Table};
use crate::filter::Filter;
use crate::fragment::{
    numbered_text, param_text, raw_text, slot_part, slots, text_part, Fragment, PartView,
};
use crate::literal::table_literal;
use crate::select::{query_problems, select_parts, QueryBuilder};
use crate::text::{joined, push_joined, views};
use crate::value::{SurrealId, Value, ValueView};
use vstd::prelude::*;

verus! {

/// The condition that a traversal step filters by.
pub fn where_(condition: Filter) -> (out: Filter)
    ensures
        out@ == condition@,
        out.problems() == condition.problems(),
{
    Filter::new(condition)
}

/// No constraint: renders as nothing.
#[derive(Debug)]
pub struct Empty;

impl Empty {
    /// The text of no constraint: none.
    pub fn build(&self) -> (out: String)
        ensures
            out@ == Seq::<char>::empty(),
    {
        String::new()
    }

    /// The text of no condition: none.
    pub fn get_condition_query_string(&self) -> (out: String)
        ensures
            out@ == Seq::<char>::empty(),
    {
        String::new()
    }

    /// No constraint has no problems.
    pub fn get_errors(&self) -> (out: Vec<QueryError>)
        ensures
            out@.len() == 0,
    {
        Vec::new()
    }

    /// No constraint binds no value.
    pub fn get_bindings(&self) -> (out: Vec<Binding>)
        ensures
            out@.len() == 0,
    {
        Vec::new()
    }
}

/// Every element: `[*]`.
#[derive(Debug)]
pub struct All;

/// The last element: `[$]`.
#[derive(Debug)]
pub struct Last;

/// The element at a position.
#[derive(Debug)]
pub struct Index(pub NumberLike);

/// The element at the position `index`.
pub fn index(position: NumberLike) -> (out: Index)
    ensures
        out.0 == position,
{
    Index(position)
}

/// Any of several edge tables, with a condition on the edges where one is
/// given.
#[derive(Debug)]
pub struct AnyEdgeFilter {
    edge_tables: Vec<Table>,
    where_: Option<Filter>,
}

/// The table names of a list, each as it stands in query text.
pub open spec fn table_literals(tables: Seq<Seq<char>>) -> Seq<Seq<char>> {
    tables.map_values(|t: Seq<char>| table_literal(t))
}

/// The edge tables separated by commas and followed by a space, then the
/// condition, where there is one, after ` WHERE `.
pub open spec fn any_edge_parts(
    tables: Seq<Seq<char>>,
    condition: Option<Seq<PartView>>,
) -> Seq<PartView> {
    text_part(joined(table_literals(tables), ", "@) + " "@) + match condition {
        Some(c) => text_part(" WHERE "@) + c,
        None => Seq::empty(),
    }
}

/// Any of the edge tables `edges`, without a condition.
pub fn any_other_edges(edges: Vec<Table>) -> (out: AnyEdgeFilter)
    ensures
        out.tables() == table_views(edges@),
        out.condition() is None,
        out.problems() == Seq::<QueryErrorView>::empty(),
{
    AnyEdgeFilter { edge_tables: edges, where_: None }
}

impl View for AnyEdgeFilter {
    type V = Seq<PartView>;

    open spec fn view(&self) -> Seq<PartView> {
        any_edge_parts(self.tables(), self.condition())
    }
}

impl AnyEdgeFilter {
    /// The names of the edge tables.
    pub closed spec fn tables(&self) -> Seq<Seq<char>> {
        table_views(self.edge_tables@)
    }

    /// The condition on the edges, where there is one.
    pub closed spec fn condition(&self) -> Option<Seq<PartView>> {
        match self.where_ {
            Some(f) => Some(f@),
            None => None,
        }
    }

    /// The problems that the condition brought with it.
    pub closed spec fn problems(&self) -> Seq<QueryErrorView> {
        match self.where_ {
            Some(f) => f.problems(),
            None => Seq::empty(),
        }
    }

    /// Sets the condition on the edges. There is one condition: a second
    /// call replaces the first, with its bindings and its problems.
    pub fn where_(self, condition: Filter) -> (out: AnyEdgeFilter)
        ensures
            out.tables() == self.tables(),
            out.condition() == Some(condition@),
            out.problems() == condition.problems(),
    {
        AnyEdgeFilter { edge_tables: self.edge_tables, where_: Some(Filter::new(condition)) }
    }

    /// The filter in pieces.
    pub fn fragment(&self) -> (out: Fragment)
        ensures
            out@ == self@,
    {
        let mut names: Vec<String> = Vec::new();
        let mut i: usize = 0;
        while i < self.edge_tables.len()
            invariant
                i <= self.edge_tables.len(),
                views(names@) == table_literals(self.tables()).take(i as int),
            decreases self.edge_tables.len() - i,
        {
            let ghost before = names@;
            let name = self.edge_tables[i].build();
            names.push(name);
            assert(views(names@) =~= views(before).push(name@));
            i = i + 1;
            assert(views(names@) =~= table_literals(self.tables()).take(i as int));
        }
        assert(table_literals(self.tables()).take(i as int) =~= table_literals(self.tables()));
        let mut head = String::new();
        push_joined(&mut head, &names, ", ");
        head.append(" ");
        assert(head@ =~= joined(table_literals(self.tables()), ", "@) + " "@);
        let mut out = Fragment::text(head.as_str());
        match &self.where_ {
            Some(condition) => {
                out.push_text(" WHERE ");
                let (body, _) = condition.clone().into_parts();
                out.push_fragment(body);
            },
            None => {},
        }
        assert(out@ =~= self@);
        out
    }

    /// The parameterized text of the filter.
    pub fn build(&self) -> (out: String)
        ensures
            out@ == param_text(self@),
    {
        self.fragment().build()
    }

    /// The raw text of the filter.
    pub fn to_raw(&self) -> (out: String)
        ensures
            out@ == raw_text(self@),
    {
        self.fragment().to_raw()
    }

    /// The parameterized text, with the placeholders numbered anew from 1.
    pub fn fine_tune_params(&self) -> (out: String)
        ensures
            out@ == numbered_text(self@, 1),
    {
        self.fragment().fine_tune_params()
    }

    /// The bound values, in the order of their placeholders.
    pub fn get_bindings(&self) -> (out: Vec<Binding>)
        ensures
            binding_views(out@) == slots(self@),
    {
        self.fragment().get_bindings()
    }

    /// The problems that the condition brought with it.
    pub fn get_errors(&self) -> (out: Vec<QueryError>)
        ensures
            error_views(out@) == self.problems(),
    {
        match &self.where_ {
            Some(condition) => condition.get_errors(),
            None => {
                let out: Vec<QueryError> = Vec::new();
                assert(error_views(out@) =~= self.problems());
                out
            },
        }
    }
}

/// What a clause selects.
#[derive(Debug)]
pub enum ClauseType {
    All,
    Last,
    Index(Index),
    Empty,
    Where(Filter),
    Query(QueryBuilder),
    Id(SurrealId),
    AnyEdgeFilter(AnyEdgeFilter),
}

/// How a clause is put together with its name.
#[derive(Clone, Copy, Debug)]
pub enum ClauseShape {
    /// The name stands right before the clause.
    Plain,
    /// The result of a statement: no name is written.
    Query,
    /// One record: only its placeholder is written.
    Id,
    /// Any of several edge tables: the name is the first of them, inside
    /// the parentheses.
    AnyEdge,
}

/// The shape of a kind of clause.
pub open spec fn shape_of(kind: ClauseType) -> ClauseShape {
    match kind {
        ClauseType::Query(_) => ClauseShape::Query,
        ClauseType::Id(_) => ClauseShape::Id,
        ClauseType::AnyEdgeFilter(_) => ClauseShape::AnyEdge,
        _ => ClauseShape::Plain,
    }
}

/// How many values a kind of clause binds anew: one for a record and for
/// an index, none for the others.
pub open spec fn kind_bindings(kind: ClauseType) -> nat {
    match kind {
        ClauseType::Id(_) => 1,
        ClauseType::Index(_) => 1,
        _ => 0,
    }
}

/// The text of a kind of clause, in pieces. A value that is bound anew
/// gets the placeholder with number `id`.
pub open spec fn kind_parts(kind: ClauseType, id: nat) -> Seq<PartView> {
    match kind {
        ClauseType::All => text_part("[*]"@),
        ClauseType::Last => text_part("[$]"@),
        ClauseType::Index(i) => text_part("["@) + slot_part(
            BindingView { id, value: number_like_value(i.0) },
        ) + text_part("]"@),
        ClauseType::Empty => Seq::empty(),
        ClauseType::Where(filter) => text_part("[WHERE "@) + filter@ + text_part("]"@),
        ClauseType::Query(query) => text_part("("@) + select_parts(query@) + text_part(")"@),
        ClauseType::Id(record) => slot_part(BindingView { id, value: ValueView::Record(record@) }),
        ClauseType::AnyEdgeFilter(edges) => edges@,
    }
}

/// The problems that a kind of clause brings with it: those of its
/// condition or of its statement, or that of the value that it binds anew
/// with the number `id`.
pub open spec fn kind_problems(kind: ClauseType, id: nat) -> Seq<QueryErrorView> {
    match kind {
        ClauseType::Where(filter) => filter.problems(),
        ClauseType::Query(query) => query_problems(query@),
        ClauseType::AnyEdgeFilter(edges) => edges.problems(),
        ClauseType::Id(record) => binding_problems(
            BindingView { id, value: ValueView::Record(record@) },
        ),
        ClauseType::Index(i) => binding_problems(
            BindingView { id, value: number_like_value(i.0) },
        ),
        _ => Seq::empty(),
    }
}

/// The table of the record that a kind of clause addresses, where it
/// addresses one.
pub open spec fn kind_record_table(kind: ClauseType) -> Option<Seq<char>> {
    match kind {
        ClauseType::Id(record) => Some(record@.table),
        _ => None,
    }
}

/// The name that a clause is addressed by.
#[derive(Debug)]
pub enum ModelOrFieldName {
    Model(String),
    Field(String),
}

/// What a clause holds.
pub struct ClauseView {
    pub shape: ClauseShape,
    /// The table of the record that the clause addresses, where it
    /// addresses one.
    pub record_table: Option<Seq<char>>,
    pub arrow: Option<Seq<char>>,
    pub name: Option<Seq<char>>,
    /// The text of what the clause selects, in pieces.
    pub body: Seq<PartView>,
    pub errors: Seq<QueryErrorView>,
}

/// A text that may be missing: nothing where it is.
pub open spec fn text_or_empty(text: Option<Seq<char>>) -> Seq<char> {
    match text {
        Some(t) => t,
        None => Seq::empty(),
    }
}

/// The start of the list of edge tables: the parenthesis, and the name with
/// a comma where there is one.
pub open spec fn any_edge_head(name: Option<Seq<char>>) -> Seq<char> {
    match name {
        Some(n) => "("@ + n + ", "@,
        None => "("@,
    }
}

/// The text of a clause, in pieces: the arrow, then the name and the body
/// as the shape puts them together.
pub open spec fn clause_parts(c: ClauseView) -> Seq<PartView> {
    text_part(text_or_empty(c.arrow)) + match c.shape {
        ClauseShape::Plain => text_part(text_or_empty(c.name)) + c.body,
        ClauseShape::Query => c.body,
        ClauseShape::Id => c.body,
        ClauseShape::AnyEdge => text_part(any_edge_head(c.name)) + c.body + text_part(")"@),
    }
}

/// One addressing decision, with the problems found while it was made.
#[derive(Debug)]
pub struct Clause {
    shape: ClauseShape,
    record_table: Option<String>,
    arrow: Option<String>,
    model_or_field_name: Option<ModelOrFieldName>,
    body: Fragment,
    errors: Vec<QueryError>,
}

impl View for Clause {
    type V = ClauseView;

    closed spec fn view(&self) -> ClauseView {
        ClauseView {
            shape: self.shape,
            record_table: match self.record_table {
                Some(t) => Some(t@),
                None => None,
            },
            arrow: match self.arrow {
                Some(a) => Some(a@),
                None => None,
            },
            name: match self.model_or_field_name {
                Some(ModelOrFieldName::Model(m)) => Some(m@),
                Some(ModelOrFieldName::Field(f)) => Some(f@),
                None => None,
            },
            body: self.body@,
            errors: error_views(self.errors@),
        }
    }
}

/// The problems of a clause after it was addressed through `table`: one
/// more where the clause addresses a record of another table.
pub open spec fn errors_with_table(c: ClauseView, table: Seq<char>) -> Seq<QueryErrorView> {
    match c.record_table {
        Some(actual) => if actual != table {
            c.errors.push(QueryErrorView::IdTableMismatch { expected: table, actual })
        } else {
            c.errors
        },
        None => c.errors,
    }
}

/// Error accumulation: a clause that addresses a record, addressed
/// through a table that is not the record's own, has one problem more, and
/// the problem names both tables. The clause renders all the same:
/// rendering asks nothing of the problems.
pub proof fn lemma_table_mismatch_recorded(c: ClauseView, table: Seq<char>)
    requires
        c.record_table is Some,
        c.record_table->0 != table,
    ensures
        errors_with_table(c, table).len() == c.errors.len() + 1,
        errors_with_table(c, table).last() == (QueryErrorView::IdTableMismatch {
            expected: table,
            actual: c.record_table->0,
        }),
        errors_with_table(c, table).drop_last() == c.errors,
{
    assert(errors_with_table(c, table).drop_last() =~= c.errors);
}

/// A clause addressed through the table of its record, or a clause that
/// addresses no record, has the problems that it had.
pub proof fn lemma_table_match_keeps_errors(c: ClauseView, table: Seq<char>)
    requires
        c.record_table matches Some(actual) ==> actual == table,
    ensures
        errors_with_table(c, table) == c.errors,
{
}

impl Clause {
    /// The clause of the kind `kind`, without arrow and name. A record
    /// identifier and an index are bound to a new placeholder; a
    /// condition, a statement and a filter of edge tables come with the
    /// bindings and the problems that they have.
    pub fn new(alloc: &mut BindingAllocator, kind: ClauseType) -> (out: Clause)
        requires
            old(alloc).room() >= kind_bindings(kind),
        ensures
            out@ == (ClauseView {
                shape: shape_of(kind),
                record_table: kind_record_table(kind),
                arrow: None,
                name: None,
                body: kind_parts(kind, old(alloc).next_id()),
                errors: kind_problems(kind, old(alloc).next_id()),
            }),
            final(alloc).next_id() == old(alloc).next_id() + kind_bindings(kind),
    {
        match kind {
            ClauseType::Id(record) => {
                let record_table = Some(record.table.clone());
                let binding = alloc.new_binding(Value::Record(record));
                let mut errors: Vec<QueryError> = Vec::new();
                binding.validate(&mut errors);
                let out = Clause {
                    shape: ClauseShape::Id,
                    record_table,
                    arrow: None,
                    model_or_field_name: None,
                    body: Fragment::slot(binding),
                    errors,
                };
                assert(out@.errors =~= kind_problems(kind, old(alloc).next_id()));
                out
            },
            ClauseType::Index(index) => {
                let binding = alloc.new_binding(index.0.to_value());
                let mut errors: Vec<QueryError> = Vec::new();
                binding.validate(&mut errors);
                let mut body = Fragment::text("[");
                body.push_binding(binding);
                body.push_text("]");
                let out = Clause {
                    shape: ClauseShape::Plain,
                    record_table: None,
                    arrow: None,
                    model_or_field_name: None,
                    body,
                    errors,
                };
                assert(out@.errors =~= kind_problems(kind, old(alloc).next_id()));
                out
            },
            other => Clause::unbound(other),
        }
    }

    /// The clause of a kind that binds no value anew.
    fn unbound(kind: ClauseType) -> (out: Clause)
        requires
            kind_bindings(kind) == 0,
        ensures
            out@ == (ClauseView {
                shape: shape_of(kind),
                record_table: None,
                arrow: None,
                name: None,
                body: kind_parts(kind, 0),
                errors: kind_problems(kind, 0),
            }),
    {
        let mut errors: Vec<QueryError> = Vec::new();
        let mut shape = ClauseShape::Plain;
        let body = match kind {
            ClauseType::Where(filter) => {
                let (condition, problems) = filter.into_parts();
                errors = problems;
                let mut body = Fragment::text("[WHERE ");
                body.push_fragment(condition);
                body.push_text("]");
                body
            },
            ClauseType::Query(query) => {
                shape = ClauseShape::Query;
                errors = query.get_errors();
                let mut body = Fragment::text("(");
                body.push_fragment(query.select_fragment());
                body.push_text(")");
                body
            },
            ClauseType::All => Fragment::text("[*]"),
            ClauseType::Last => Fragment::text("[$]"),
            ClauseType::AnyEdgeFilter(edges) => {
                shape = ClauseShape::AnyEdge;
                errors = edges.get_errors();
                edges.fragment()
            },
            _ => Fragment::new(),
        };
        let out = Clause {
            shape,
            record_table: None,
            arrow: None,
            model_or_field_name: None,
            body,
            errors,
        };
        assert(out@.errors =~= kind_problems(kind, 0));
        out
    }

    /// The same clause behind the arrow `arrow`, such as `->` or `<-`.
    pub fn with_arrow(self, arrow: &str) -> (out: Clause)
        ensures
            out@ == (ClauseView { arrow: Some(arrow@), ..self@ }),
    {
        let mut out = self;
        out.arrow = Some(arrow.to_owned());
        out
    }

    /// The same clause addressed through the table `table_name`. Where
    /// the clause addresses a record of another table, that is recorded as
    /// a problem; the clause is built all the same.
    pub fn with_table(self, table_name: &str) -> (out: Clause)
        ensures
            out@ == (ClauseView {
                name: Some(table_name@),
                errors: errors_with_table(self@, table_name@),
                ..self@
            }),
    {
        let mut out = self.update_errors(table_name);
        out.model_or_field_name = Some(ModelOrFieldName::Model(table_name.to_owned()));
        out
    }

    /// The same clause addressed through the field `field_name`.
    pub fn with_field(self, field_name: String) -> (out: Clause)
        ensures
            out@ == (ClauseView { name: Some(field_name@), ..self@ }),
    {
        let mut out = self;
        out.model_or_field_name = Some(ModelOrFieldName::Field(field_name));
        out
    }

    /// Records a problem where the clause addresses a record whose table
    /// is not `table_name`.
    pub fn update_errors(self, table_name: &str) -> (out: Clause)
        ensures
            out@ == (ClauseView { errors: errors_with_table(self@, table_name@), ..self@ }),
    {
        let mut out = self;
        let expected = table_name.to_owned();
        let mismatch: Option<String> = match &out.record_table {
            Some(actual) => if *actual != expected {
                Some(actual.clone())
            } else {
                None
            },
            None => None,
        };
        match mismatch {
            Some(actual) => {
                let ghost before = out.errors@;
                let error = QueryError::IdTableMismatch { expected, actual };
                out.errors.push(error);
                assert(error_views(out.errors@) =~= error_views(before).push(error@));
            },
            None => {},
        }
        out
    }

    /// The clause in pieces.
    pub fn fragment(&self) -> (out: Fragment)
        ensures
            out@ == clause_parts(self@),
    {
        let mut out = match &self.arrow {
            Some(arrow) => Fragment::text(arrow.as_str()),
            None => Fragment::text(""),
        };
        let name: &str = match &self.model_or_field_name {
            Some(ModelOrFieldName::Model(m)) => m.as_str(),
            Some(ModelOrFieldName::Field(f)) => f.as_str(),
            None => "",
        };
        proof {
            reveal_strlit("");
            assert(""@ =~= Seq::<char>::empty());
        }
        match self.shape {
            ClauseShape::Plain => {
                out.push_text(name);
                out.extend(&self.body);
            },
            ClauseShape::Query => {
                out.extend(&self.body);
            },
            ClauseShape::Id => {
                out.extend(&self.body);
            },
            ClauseShape::AnyEdge => {
                let mut head = String::from_str("(");
                if self.model_or_field_name.is_some() {
                    head.append(name);
                    head.append(", ");
                }
                assert(head@ =~= any_edge_head(self@.name));
                out.push_text(head.as_str());
                out.extend(&self.body);
                out.push_text(")");
            },
        }
        assert(out@ =~= clause_parts(self@));
        out
    }

    /// The parameterized text of the clause.
    pub fn build(&self) -> (out: String)
        ensures
            out@ == param_text(clause_parts(self@)),
    {
        self.fragment().build()
    }

    /// The raw text of the clause.
    pub fn to_raw(&self) -> (out: String)
        ensures
            out@ == raw_text(clause_parts(self@)),
    {
        self.fragment().to_raw()
    }

    /// The parameterized text, with the placeholders numbered anew from 1.
    pub fn fine_tune_params(&self) -> (out: String)
        ensures
            out@ == numbered_text(clause_parts(self@), 1),
    {
        self.fragment().fine_tune_params()
    }

    /// The bound values, in the order of their placeholders.
    pub fn get_bindings(&self) -> (out: Vec<Binding>)
        ensures
            binding_views(out@) == slots(clause_parts(self@)),
    {
        self.fragment().get_bindings()
    }

    /// The problems found while the clause was made.
    pub fn get_errors(&self) -> (out: Vec<QueryError>)
        ensures
            error_views(out@) == self@.errors,
    {
        clone_errors(&self.errors)
    }
}

/// A clause at the place of a node.
#[derive(Debug)]
pub struct NodeClause(Clause);

impl View for NodeClause {
    type V = ClauseView;

    closed spec fn view(&self) -> ClauseView {
        self.0@
    }
}

impl NodeClause {
    /// The node that is the record `id`: the identifier is bound to a new
    /// placeholder.
    pub fn from_id(alloc: &mut BindingAllocator, id: SurrealId) -> (out: NodeClause)
        requires
            old(alloc).room() >= 1,
        ensures
            out@ == (ClauseView {
                shape: ClauseShape::Id,
                record_table: Some(id@.table),
                arrow: None,
                name: None,
                body: slot_part(
                    BindingView { id: old(alloc).next_id(), value: ValueView::Record(id@) },
                ),
                errors: binding_problems(
                    BindingView { id: old(alloc).next_id(), value: ValueView::Record(id@) },
                ),
            }),
            final(alloc).next_id() == old(alloc).next_id() + 1,
    {
        NodeClause(Clause::new(alloc, ClauseType::Id(id)))
    }

    /// The same clause behind the arrow `arrow`.
    pub fn with_arrow(self, arrow: &str) -> (out: NodeClause)
        ensures
            out@ == (ClauseView { arrow: Some(arrow@), ..self@ }),
    {
        NodeClause(self.0.with_arrow(arrow))
    }

    /// The same clause addressed through the table `table_name`. Where
    /// the clause addresses a record of another table, that is recorded as
    /// a problem.
    pub fn with_table(self, table_name: &str) -> (out: NodeClause)
        ensures
            out@ == (ClauseView {
                name: Some(table_name@),
                errors: errors_with_table(self@, table_name@),
                ..self@
            }),
    {
        NodeClause(self.0.with_table(table_name))
    }

    /// The same clause addressed through the field `field_name`.
    pub fn with_field(self, field_name: String) -> (out: NodeClause)
        ensures
            out@ == (ClauseView { name: Some(field_name@), ..self@ }),
    {
        NodeClause(self.0.with_field(field_name))
    }

    /// The parameterized text of the clause.
    pub fn build(&self) -> (out: String)
        ensures
            out@ == param_text(clause_parts(self@)),
    {
        self.0.build()
    }

    /// The raw text of the clause.
    pub fn to_raw(&self) -> (out: String)
        ensures
            out@ == raw_text(clause_parts(self@)),
    {
        self.0.to_raw()
    }

    /// The parameterized text, with the placeholders numbered anew from 1.
    pub fn fine_tune_params(&self) -> (out: String)
        ensures
            out@ == numbered_text(clause_parts(self@), 1),
    {
        self.0.fine_tune_params()
    }

    /// The bound values, in the order of their placeholders.
    pub fn get_bindings(&self) -> (out: Vec<Binding>)
        ensures
            binding_views(out@) == slots(clause_parts(self@)),
    {
        self.0.get_bindings()
    }

    /// The problems found while the clause was made.
    pub fn get_errors(&self) -> (out: Vec<QueryError>)
        ensures
            error_views(out@) == self@.errors,
    {
        self.0.get_errors()
    }
}

/// A clause at the place of an edge.
#[derive(Debug)]
pub struct EdgeClause(Clause);

impl View for EdgeClause {
    type V = ClauseView;

    closed spec fn view(&self) -> ClauseView {
        self.0@
    }
}

impl EdgeClause {

    /// The same clause behind the arrow `arrow`.
    pub fn with_arrow(self, arrow: &str) -> (out: EdgeClause)
        ensures
            out@ == (ClauseView { arrow: Some(arrow@), ..self@ }),
    {
        EdgeClause(self.0.with_arrow(arrow))
    }

    /// The same clause addressed through the table `table_name`. Where
    /// the clause addresses a record of another table, that is recorded as
    /// a problem.
    pub fn with_table(self, table_name: &str) -> (out: EdgeClause)
        ensures
            out@ == (ClauseView {
                name: Some(table_name@),
                errors: errors_with_table(self@, table_name@),
                ..self@
            }),
    {
        EdgeClause(self.0.with_table(table_name))
    }

    /// The parameterized text of the clause.
    pub fn build(&self) -> (out: String)
        ensures
            out@ == param_text(clause_parts(self@)),
    {
        self.0.build()
    }

    /// The raw text of the clause.
    pub fn to_raw(&self) -> (out: String)
        ensures
            out@ == raw_text(clause_parts(self@)),
    {
        self.0.to_raw()
    }

    /// The parameterized text, with the placeholders numbered anew from 1.
    pub fn fine_tune_params(&self) -> (out: String)
        ensures
            out@ == numbered_text(clause_parts(self@), 1),
    {
        self.0.fine_tune_params()
    }

    /// The bound values, in the order of their placeholders.
    pub fn get_bindings(&self) -> (out: Vec<Binding>)
        ensures
            binding_views(out@) == slots(clause_parts(self@)),
    {
        self.0.get_bindings()
    }

    /// The problems found while the clause was made.
    pub fn get_errors(&self) -> (out: Vec<QueryError>)
        ensures
            error_views(out@) == self@.errors,
    {
        self.0.get_errors()
    }
}

/// A clause at the place of an object.
#[derive(Debug)]
pub struct ObjectClause(Clause);

impl View for ObjectClause {
    type V = ClauseView;

    closed spec fn view(&self) -> ClauseView {
        self.0@
    }
}

impl ObjectClause {
    /// The same clause behind the arrow `arrow`.
    pub fn with_arrow(self, arrow: &str) -> (out: ObjectClause)
        ensures
            out@ == (ClauseView { arrow: Some(arrow@), ..self@ }),
    {
        ObjectClause(self.0.with_arrow(arrow))
    }

    /// The same clause addressed through the table `table_name`. Where
    /// the clause addresses a record of another table, that is recorded as
    /// a problem.
    pub fn with_table(self, table_name: &str) -> (out: ObjectClause)
        ensures
            out@ == (ClauseView {
                name: Some(table_name@),
                errors: errors_with_table(self@, table_name@),
                ..self@
            }),
    {
        ObjectClause(self.0.with_table(table_name))
    }

    /// The same clause addressed through the field `field_name`.
    pub fn with_field(self, field_name: String) -> (out: ObjectClause)
        ensures
            out@ == (ClauseView { name: Some(field_name@), ..self@ }),
    {
        ObjectClause(self.0.with_field(field_name))
    }

    /// The parameterized text of the clause.
    pub fn build(&self) -> (out: String)
        ensures
            out@ == param_text(clause_parts(self@)),
    {
        self.0.build()
    }

    /// The raw text of the clause.
    pub fn to_raw(&self) -> (out: String)
        ensures
            out@ == raw_text(clause_parts(self@)),
    {
        self.0.to_raw()
    }

    /// The parameterized text, with the placeholders numbered anew from 1.
    pub fn fine_tune_params(&self) -> (out: String)
        ensures
            out@ == numbered_text(clause_parts(self@), 1),
    {
        self.0.fine_tune_params()
    }

    /// The bound values, in the order of their placeholders.
    pub fn get_bindings(&self) -> (out: Vec<Binding>)
        ensures
            binding_views(out@) == slots(clause_parts(self@)),
    {
        self.0.get_bindings()
    }

    /// The problems found while the clause was made.
    pub fn get_errors(&self) -> (out: Vec<QueryError>)
        ensures
            error_views(out@) == self@.errors,
    {
        self.0.get_errors()
    }
}

/// A clause at the place of a node that has an alias.
#[derive(Debug)]
pub struct NodeAliasClause(NodeClause);

impl View for NodeAliasClause {
    type V = ClauseView;

    closed spec fn view(&self) -> ClauseView {
        self.0@
    }
}

impl NodeAliasClause {
    /// The node clause inside.
    pub fn into_inner(self) -> (out: NodeClause)
        ensures
            out@ == self@,
    {
        self.0
    }
}

impl From<Empty> for Clause {
    /// The clause that selects nothing more.
    fn from(value: Empty) -> (out: Clause)
        ensures
            out@ == (ClauseView {
                shape: shape_of(ClauseType::Empty),
                record_table: None,
                arrow: None,
                name: None,
                body: kind_parts(ClauseType::Empty, 0),
                errors: kind_problems(ClauseType::Empty, 0),
            }),
    {
        Clause::unbound(ClauseType::Empty)
    }
}

impl vstd::std_specs::convert::FromSpecImpl<Empty> for Clause {
    open spec fn obeys_from_spec() -> bool {
        false
    }

    open spec fn from_spec(v: Empty) -> Clause {
        arbitrary()
    }
}

impl From<All> for Clause {
    /// The clause that selects every element.
    fn from(value: All) -> (out: Clause)
        ensures
            out@ == (ClauseView {
                shape: shape_of(ClauseType::All),
                record_table: None,
                arrow: None,
                name: None,
                body: kind_parts(ClauseType::All, 0),
                errors: kind_problems(ClauseType::All, 0),
            }),
    {
        Clause::unbound(ClauseType::All)
    }
}

impl vstd::std_specs::convert::FromSpecImpl<All> for Clause {
    open spec fn obeys_from_spec() -> bool {
        false
    }

    open spec fn from_spec(v: All) -> Clause {
        arbitrary()
    }
}

impl From<Last> for Clause {
    /// The clause that selects the last element.
    fn from(value: Last) -> (out: Clause)
        ensures
            out@ == (ClauseView {
                shape: shape_of(ClauseType::Last),
                record_table: None,
                arrow: None,
                name: None,
                body: kind_parts(ClauseType::Last, 0),
                errors: kind_problems(ClauseType::Last, 0),
            }),
    {
        Clause::unbound(ClauseType::Last)
    }
}

impl vstd::std_specs::convert::FromSpecImpl<Last> for Clause {
    open spec fn obeys_from_spec() -> bool {
        false
    }

    open spec fn from_spec(v: Last) -> Clause {
        arbitrary()
    }
}

impl From<Filter> for Clause {
    /// The clause that selects what meets a condition.
    fn from(value: Filter) -> (out: Clause)
        ensures
            out@ == (ClauseView {
                shape: shape_of(ClauseType::Where(value)),
                record_table: None,
                arrow: None,
                name: None,
                body: kind_parts(ClauseType::Where(value), 0),
                errors: kind_problems(ClauseType::Where(value), 0),
            }),
    {
        Clause::unbound(ClauseType::Where(value))
    }
}

impl vstd::std_specs::convert::FromSpecImpl<Filter> for Clause {
    open spec fn obeys_from_spec() -> bool {
        false
    }

    open spec fn from_spec(v: Filter) -> Clause {
        arbitrary()
    }
}

impl From<QueryBuilder> for Clause {
    /// The clause that selects the result of a statement.
    fn from(value: QueryBuilder) -> (out: Clause)
        ensures
            out@ == (ClauseView {
                shape: shape_of(ClauseType::Query(value)),
                record_table: None,
                arrow: None,
                name: None,
                body: kind_parts(ClauseType::Query(value), 0),
                errors: kind_problems(ClauseType::Query(value), 0),
            }),
    {
        Clause::unbound(ClauseType::Query(value))
    }
}

impl vstd::std_specs::convert::FromSpecImpl<QueryBuilder> for Clause {
    open spec fn obeys_from_spec() -> bool {
        false
    }

    open spec fn from_spec(v: QueryBuilder) -> Clause {
        arbitrary()
    }
}

impl From<AnyEdgeFilter> for EdgeClause {
    /// The edge that is any of several edge tables.
    fn from(value: AnyEdgeFilter) -> (out: EdgeClause)
        ensures
            out@ == (ClauseView {
                shape: shape_of(ClauseType::AnyEdgeFilter(value)),
                record_table: None,
                arrow: None,
                name: None,
                body: kind_parts(ClauseType::AnyEdgeFilter(value), 0),
                errors: kind_problems(ClauseType::AnyEdgeFilter(value), 0),
            }),
    {
        EdgeClause(Clause::unbound(ClauseType::AnyEdgeFilter(value)))
    }
}

impl vstd::std_specs::convert::FromSpecImpl<AnyEdgeFilter> for EdgeClause {
    open spec fn obeys_from_spec() -> bool {
        false
    }

    open spec fn from_spec(v: AnyEdgeFilter) -> EdgeClause {
        arbitrary()
    }
}

impl From<Clause> for NodeClause {
    /// The clause at the place of a node.
    fn from(value: Clause) -> (out: NodeClause)
        ensures
            out@ == value@,
    {
        NodeClause(value)
    }
}

impl vstd::std_specs::convert::FromSpecImpl<Clause> for NodeClause {
    open spec fn obeys_from_spec() -> bool {
        false
    }

    open spec fn from_spec(v: Clause) -> NodeClause {
        arbitrary()
    }
}

impl From<Clause> for EdgeClause {
    /// The clause at the place of an edge.
    fn from(value: Clause) -> (out: EdgeClause)
        ensures
            out@ == value@,
    {
        EdgeClause(value)
    }
}

impl vstd::std_specs::convert::FromSpecImpl<Clause> for EdgeClause {
    open spec fn obeys_from_spec() -> bool {
        false
    }

    open spec fn from_spec(v: Clause) -> EdgeClause {
        arbitrary()
    }
}

impl From<Clause> for ObjectClause {
    /// The clause at the place of an object.
    fn from(value: Clause) -> (out: ObjectClause)
        ensures
            out@ == value@,
    {
        ObjectClause(value)
    }
}

impl vstd::std_specs::convert::FromSpecImpl<Clause> for ObjectClause {
    open spec fn obeys_from_spec() -> bool {
        false
    }

    open spec fn from_spec(v: Clause) -> ObjectClause {
        arbitrary()
    }
}

impl From<Clause> for NodeAliasClause {
    /// The clause at the place of a node that has an alias.
    fn from(value: Clause) -> (out: NodeAliasClause)
        ensures
            out@ == value@,
    {
        NodeAliasClause(NodeClause(value))
    }
}

impl vstd::std_specs::convert::FromSpecImpl<Clause> for NodeAliasClause {
    open spec fn obeys_from_spec() -> bool {
        false
    }

    open spec fn from_spec(v: Clause) -> NodeAliasClause {
        arbitrary()
    }
}

} // verus!
