//! The SELECT statement: what it holds, and the text it renders.

use crate::binding::{
    binding_views, bindings_problems, numbered_bindings, validate_bindings, value_views, Binding,
    BindingAllocator, BindingView,
};
use crate::clause::All;
use crate::error::{
    append_errors, clone_errors, error_views, InvalidQuery, QueryError, QueryErrorView,
};
use crate::field::{field_views, Field, Table};
use crate::filter::Filter;
use crate::fragment::{
    holds_placeholders, lemma_param_text_concat, lemma_raw_text_concat, lemma_slot_part,
    lemma_slots_concat, lemma_text_part, numbered_text, param_text, placeholder_names, raw_text,
    slot_part, slots, text_part, texts_dollar_free, Fragment, PartView,
};
use crate::order::{
    groupables_views, order_text, order_views, orderables_views, splittables_views, Groupables,
    Order, OrderView, Orderables, Splittables,
};
use crate::text::{decimal, joined, push_decimal, push_joined, views};
use crate::value::{SurrealId, Value, ValueView};
use vstd::prelude::*;

verus! {

/// What a SELECT statement holds.
pub struct QueryView {
    /// What is selected, each entry as it stands in the text.
    pub projections: Seq<Seq<char>>,
    /// Where it is selected from, each entry in pieces.
    pub targets: Seq<Seq<PartView>>,
    /// The problems that sub-queries among the targets brought with them.
    pub target_errors: Seq<QueryErrorView>,
    /// The condition, where there is one.
    pub condition: Option<Seq<PartView>>,
    /// The problems that the condition brought with it.
    pub condition_errors: Seq<QueryErrorView>,
    pub split: Seq<Seq<char>>,
    pub group_by: Seq<Seq<char>>,
    pub order_by: Seq<OrderView>,
    pub limit: Option<u64>,
    pub start: Option<u64>,
    pub fetch: Seq<Seq<char>>,
    pub timeout: Option<Seq<char>>,
    pub parallel: bool,
}

/// A statement that holds nothing yet.
pub open spec fn empty_query() -> QueryView {
    QueryView {
        projections: Seq::empty(),
        targets: Seq::empty(),
        target_errors: Seq::empty(),
        condition: None,
        condition_errors: Seq::empty(),
        split: Seq::empty(),
        group_by: Seq::empty(),
        order_by: Seq::empty(),
        limit: None,
        start: None,
        fetch: Seq::empty(),
        timeout: None,
        parallel: false,
    }
}

/// A section that lists items after a keyword; nothing where there is no
/// item.
pub open spec fn list_section(keyword: Seq<char>, items: Seq<Seq<char>>) -> Seq<char> {
    if items.len() == 0 {
        Seq::empty()
    } else {
        keyword + joined(items, ", "@)
    }
}

/// A section that gives a number after a keyword; nothing where there is
/// no number.
pub open spec fn number_section(keyword: Seq<char>, n: Option<u64>) -> Seq<char> {
    match n {
        Some(n) => keyword + decimal(n as nat),
        None => Seq::empty(),
    }
}

/// The TIMEOUT section.
pub open spec fn timeout_section(timeout: Option<Seq<char>>) -> Seq<char> {
    match timeout {
        Some(t) => " TIMEOUT "@ + t,
        None => Seq::empty(),
    }
}

/// The PARALLEL section.
pub open spec fn parallel_section(parallel: bool) -> Seq<char> {
    if parallel {
        " PARALLEL"@
    } else {
        Seq::empty()
    }
}

/// The texts of the sort keys.
pub open spec fn order_by_texts(orders: Seq<OrderView>) -> Seq<Seq<char>> {
    orders.map_values(|o: OrderView| order_text(o))
}

/// The start of the statement, up to where the targets begin.
pub open spec fn head_text(q: QueryView) -> Seq<char> {
    "SELECT "@ + joined(q.projections, ", "@) + " FROM "@
}

/// Everything after the condition: the sections SPLIT, GROUP BY, ORDER BY,
/// LIMIT, START AT, FETCH, TIMEOUT and PARALLEL, in this order, each left
/// out where it is empty.
pub open spec fn tail_text(q: QueryView) -> Seq<char> {
    list_section(" SPLIT "@, q.split) + list_section(" GROUP BY "@, q.group_by) + list_section(
        " ORDER BY "@,
        order_by_texts(q.order_by),
    ) + number_section(" LIMIT "@, q.limit) + number_section(" START AT "@, q.start)
        + list_section(" FETCH "@, q.fetch) + timeout_section(q.timeout) + parallel_section(
        q.parallel,
    )
}

/// Runs of pieces put one after the other, with `sep` between each two
/// neighbours.
pub open spec fn joined_pieces(items: Seq<Seq<PartView>>, sep: Seq<char>) -> Seq<PartView>
    decreases items.len(),
{
    if items.len() == 0 {
        Seq::empty()
    } else if items.len() == 1 {
        items[0]
    } else {
        joined_pieces(items.drop_last(), sep) + text_part(sep) + items.last()
    }
}

/// The WHERE section.
pub open spec fn condition_section(condition: Option<Seq<PartView>>) -> Seq<PartView> {
    match condition {
        Some(c) => text_part(" WHERE "@) + c,
        None => Seq::empty(),
    }
}

/// The statement without its terminator.
pub open spec fn select_parts(q: QueryView) -> Seq<PartView> {
    text_part(head_text(q)) + joined_pieces(q.targets, ", "@) + condition_section(q.condition)
        + text_part(tail_text(q))
}

/// The whole statement, with its terminator.
pub open spec fn statement_parts(q: QueryView) -> Seq<PartView> {
    select_parts(q) + text_part(";"@)
}

/// The problems of a statement: those of its targets, then those of its
/// condition.
pub open spec fn query_problems(q: QueryView) -> Seq<QueryErrorView> {
    q.target_errors + q.condition_errors
}

/// The views of a list of fragments.
pub open spec fn fragment_views(fragments: Seq<Fragment>) -> Seq<Seq<PartView>> {
    fragments.map_values(|f: Fragment| f@)
}

/// The builder of a SELECT statement. Every call adds to what the
/// statement holds; rendering reads it and changes nothing.
#[derive(Debug)]
pub struct QueryBuilder {
    projections: Vec<String>,
    targets: Vec<Fragment>,
    target_errors: Vec<QueryError>,
    where_: Option<Filter>,
    split: Vec<String>,
    group_by: Vec<String>,
    order_by: Vec<Order>,
    limit: Option<u64>,
    start: Option<u64>,
    fetch: Vec<String>,
    timeout: Option<String>,
    parallel: bool,
}

impl View for QueryBuilder {
    type V = QueryView;

    closed spec fn view(&self) -> QueryView {
        QueryView {
            projections: views(self.projections@),
            targets: fragment_views(self.targets@),
            target_errors: error_views(self.target_errors@),
            condition: match self.where_ {
                Some(f) => Some(f@),
                None => None,
            },
            condition_errors: match self.where_ {
                Some(f) => f.problems(),
                None => Seq::empty(),
            },
            split: views(self.split@),
            group_by: views(self.group_by@),
            order_by: order_views(self.order_by@),
            limit: self.limit,
            start: self.start,
            fetch: views(self.fetch@),
            timeout: match self.timeout {
                Some(t) => Some(t@),
                None => None,
            },
            parallel: self.parallel,
        }
    }
}

/// Appends the name of each field to a list of texts.
fn push_field_names(names: &mut Vec<String>, fields: &[Field])
    ensures
        views(final(names)@) == views(old(names)@) + field_views(fields@),
{
    let mut i: usize = 0;
    while i < fields.len()
        invariant
            i <= fields.len(),
            views(names@) == views(old(names)@) + field_views(fields@).take(i as int),
        decreases fields.len() - i,
    {
        let ghost before = names@;
        let name = fields[i].build();
        names.push(name);
        assert(views(names@) =~= views(before).push(name@));
        assert(field_views(fields@).take(i as int + 1) =~= field_views(fields@).take(
            i as int,
        ).push(fields[i as int]@));
        i = i + 1;
        assert(views(names@) =~= views(old(names)@) + field_views(fields@).take(i as int));
    }
    assert(field_views(fields@).take(i as int) =~= field_views(fields@));
}

impl QueryBuilder {
    /// A statement that holds nothing yet.
    pub fn new() -> (out: QueryBuilder)
        ensures
            out@ == empty_query(),
    {
        let out = QueryBuilder {
            projections: Vec::new(),
            targets: Vec::new(),
            target_errors: Vec::new(),
            where_: None,
            split: Vec::new(),
            group_by: Vec::new(),
            order_by: Vec::new(),
            limit: None,
            start: None,
            fetch: Vec::new(),
            timeout: None,
            parallel: false,
        };
        assert(out@.projections =~= Seq::<Seq<char>>::empty());
        assert(out@.targets =~= Seq::<Seq<PartView>>::empty());
        assert(out@.target_errors =~= Seq::<QueryErrorView>::empty());
        assert(out@.split =~= Seq::<Seq<char>>::empty());
        assert(out@.group_by =~= Seq::<Seq<char>>::empty());
        assert(out@.order_by =~= Seq::<OrderView>::empty());
        assert(out@.fetch =~= Seq::<Seq<char>>::empty());
        out
    }

    /// Selects everything: adds `*` to what is selected.
    pub fn select_all(self) -> (out: QueryBuilder)
        ensures
            out@ == (QueryView { projections: self@.projections.push("*"@), ..self@ }),
    {
        let mut out = self;
        let ghost before = out.projections@;
        out.projections.push("*".to_owned());
        assert(views(out.projections@) =~= views(before).push("*"@));
        out
    }

    /// Adds one field to what is selected.
    pub fn select(self, field: &Field) -> (out: QueryBuilder)
        ensures
            out@ == (QueryView { projections: self@.projections.push(field@), ..self@ }),
    {
        let mut out = self;
        let ghost before = out.projections@;
        let name = field.build();
        out.projections.push(name);
        assert(views(out.projections@) =~= views(before).push(field@));
        out
    }

    /// Adds fields, in their order, to what is selected.
    pub fn select_many(self, fields: &[Field]) -> (out: QueryBuilder)
        ensures
            out@ == (QueryView {
                projections: self@.projections + field_views(fields@),
                ..self@
            }),
    {
        let mut out = self;
        push_field_names(&mut out.projections, fields);
        out
    }

    /// Sets the condition. A statement has one condition: a second call
    /// replaces the first, with its bindings and its problems.
    pub fn where_(self, condition: Filter) -> (out: QueryBuilder)
        ensures
            out@ == (QueryView {
                condition: Some(condition@),
                condition_errors: condition.problems(),
                ..self@
            }),
    {
        let mut out = self;
        out.where_ = Some(condition);
        out
    }

    /// Adds fields, in their order, to those at which the result is split.
    pub fn split(self, splittables: Splittables) -> (out: QueryBuilder)
        ensures
            out@ == (QueryView { split: self@.split + splittables_views(splittables), ..self@ }),
    {
        let mut out = self;
        let fields = splittables.normalize();
        push_field_names(&mut out.split, fields.as_slice());
        out
    }

    /// Adds fields, in their order, to those by which the result is
    /// grouped.
    pub fn group_by(self, groupables: Groupables) -> (out: QueryBuilder)
        ensures
            out@ == (QueryView {
                group_by: self@.group_by + groupables_views(groupables),
                ..self@
            }),
    {
        let mut out = self;
        let fields = groupables.normalize();
        push_field_names(&mut out.group_by, fields.as_slice());
        out
    }

    /// Adds sort keys, in their order, after those that are there.
    pub fn order_by(self, orderables: Orderables) -> (out: QueryBuilder)
        ensures
            out@ == (QueryView {
                order_by: self@.order_by + orderables_views(orderables),
                ..self@
            }),
    {
        let mut out = self;
        let mut orders = orderables.normalize();
        let ghost before = out.order_by@;
        let ghost added = orders@;
        out.order_by.append(&mut orders);
        assert(order_views(out.order_by@) =~= order_views(before) + order_views(added));
        out
    }

    /// Sets the greatest number of rows to return.
    pub fn limit(self, limit: u64) -> (out: QueryBuilder)
        ensures
            out@ == (QueryView { limit: Some(limit), ..self@ }),
    {
        let mut out = self;
        out.limit = Some(limit);
        out
    }

    /// Sets the number of rows to pass over before the first one returned.
    pub fn start(self, start: u64) -> (out: QueryBuilder)
        ensures
            out@ == (QueryView { start: Some(start), ..self@ }),
    {
        let mut out = self;
        out.start = Some(start);
        out
    }

    /// Adds one field to those whose records are fetched with the result.
    pub fn fetch(self, field: &Field) -> (out: QueryBuilder)
        ensures
            out@ == (QueryView { fetch: self@.fetch.push(field@), ..self@ }),
    {
        let mut out = self;
        let ghost before = out.fetch@;
        let name = field.build();
        out.fetch.push(name);
        assert(views(out.fetch@) =~= views(before).push(field@));
        out
    }

    /// Adds fields, in their order, to those whose records are fetched
    /// with the result.
    pub fn fetch_many(self, fields: &[Field]) -> (out: QueryBuilder)
        ensures
            out@ == (QueryView { fetch: self@.fetch + field_views(fields@), ..self@ }),
    {
        let mut out = self;
        push_field_names(&mut out.fetch, fields);
        out
    }

    /// Sets the time after which the statement is given up, as the
    /// database reads it, such as `5s`.
    pub fn timeout(self, duration: &str) -> (out: QueryBuilder)
        ensures
            out@ == (QueryView { timeout: Some(duration@), ..self@ }),
    {
        let mut out = self;
        out.timeout = Some(duration.to_owned());
        out
    }

    /// Asks for the statement to be run in parallel.
    pub fn parallel(self) -> (out: QueryBuilder)
        ensures
            out@ == (QueryView { parallel: true, ..self@ }),
    {
        let mut out = self;
        out.parallel = true;
        out
    }
}

/// Appends a section that lists items after a keyword.
fn push_list_section(out: &mut String, keyword: &str, items: &Vec<String>)
    ensures
        final(out)@ == old(out)@ + list_section(keyword@, views(items@)),
{
    if items.len() > 0 {
        out.append(keyword);
        push_joined(out, items, ", ");
        assert(out@ =~= old(out)@ + list_section(keyword@, views(items@)));
    } else {
        assert(out@ =~= old(out)@ + list_section(keyword@, views(items@)));
    }
}

/// Appends a section that gives a number after a keyword.
fn push_number_section(out: &mut String, keyword: &str, n: Option<u64>)
    ensures
        final(out)@ == old(out)@ + number_section(keyword@, n),
{
    match n {
        Some(n) => {
            out.append(keyword);
            push_decimal(out, n);
            assert(out@ =~= old(out)@ + number_section(keyword@, Some(n)));
        },
        None => {
            assert(out@ =~= old(out)@ + number_section(keyword@, None));
        },
    }
}

/// The texts of a list of sort keys.
fn order_texts(orders: &Vec<Order>) -> (out: Vec<String>)
    ensures
        views(out@) == order_by_texts(order_views(orders@)),
{
    let mut out: Vec<String> = Vec::new();
    let mut i: usize = 0;
    while i < orders.len()
        invariant
            i <= orders.len(),
            views(out@) == order_by_texts(order_views(orders@)).take(i as int),
        decreases orders.len() - i,
    {
        let ghost before = out@;
        let text = orders[i].build();
        out.push(text);
        assert(views(out@) =~= views(before).push(text@));
        i = i + 1;
        assert(views(out@) =~= order_by_texts(order_views(orders@)).take(i as int));
    }
    assert(order_by_texts(order_views(orders@)).take(i as int) =~= order_by_texts(
        order_views(orders@),
    ));
    out
}

/// Appends runs of pieces, with `, ` between each two neighbours.
fn push_pieces(out: &mut Fragment, items: &Vec<Fragment>)
    ensures
        final(out)@ == old(out)@ + joined_pieces(fragment_views(items@), ", "@),
{
    let mut i: usize = 0;
    while i < items.len()
        invariant
            i <= items.len(),
            out@ == old(out)@ + joined_pieces(fragment_views(items@).take(i as int), ", "@),
        decreases items.len() - i,
    {
        let ghost all = fragment_views(items@);
        proof {
            assert(all.take(i as int + 1).drop_last() =~= all.take(i as int));
            assert(all.take(i as int + 1).last() == items[i as int]@);
        }
        if i > 0 {
            out.push_text(", ");
        }
        out.extend(&items[i]);
        i = i + 1;
        assert(out@ =~= old(out)@ + joined_pieces(all.take(i as int), ", "@));
    }
    assert(fragment_views(items@).take(i as int) =~= fragment_views(items@));
}

impl QueryBuilder {
    /// The start of the statement, up to where the targets begin.
    fn head(&self) -> (out: String)
        ensures
            out@ == head_text(self@),
    {
        let mut out = String::from_str("SELECT ");
        push_joined(&mut out, &self.projections, ", ");
        out.append(" FROM ");
        out
    }

    /// Everything after the condition.
    fn tail(&self) -> (out: String)
        ensures
            out@ == tail_text(self@),
    {
        let mut out = String::new();
        push_list_section(&mut out, " SPLIT ", &self.split);
        push_list_section(&mut out, " GROUP BY ", &self.group_by);
        let orders = order_texts(&self.order_by);
        push_list_section(&mut out, " ORDER BY ", &orders);
        push_number_section(&mut out, " LIMIT ", self.limit);
        push_number_section(&mut out, " START AT ", self.start);
        push_list_section(&mut out, " FETCH ", &self.fetch);
        match &self.timeout {
            Some(t) => {
                out.append(" TIMEOUT ");
                out.append(t.as_str());
            },
            None => {},
        }
        if self.parallel {
            out.append(" PARALLEL");
        }
        assert(out@ =~= tail_text(self@));
        out
    }

    /// The statement in pieces, without its terminator.
    pub fn select_fragment(&self) -> (out: Fragment)
        ensures
            out@ == select_parts(self@),
    {
        let head = self.head();
        let mut out = Fragment::text(head.as_str());
        push_pieces(&mut out, &self.targets);
        match &self.where_ {
            Some(condition) => {
                out.push_text(" WHERE ");
                let (body, _) = condition.clone().into_parts();
                out.push_fragment(body);
            },
            None => {},
        }
        let tail = self.tail();
        out.push_text(tail.as_str());
        assert(out@ =~= select_parts(self@));
        out
    }

    /// The whole statement in pieces, with its terminator.
    pub fn statement(&self) -> (out: Fragment)
        ensures
            out@ == statement_parts(self@),
    {
        let mut out = self.select_fragment();
        out.push_text(";");
        out
    }

    /// The parameterized text of the statement: every bound value is
    /// written as its placeholder.
    pub fn build(&self) -> (out: String)
        ensures
            out@ == param_text(statement_parts(self@)),
    {
        self.statement().build()
    }

    /// The raw text of the statement: every bound value is written out.
    /// For reading and testing, never for execution.
    pub fn to_raw(&self) -> (out: String)
        ensures
            out@ == raw_text(statement_parts(self@)),
    {
        self.statement().to_raw()
    }

    /// The parameterized text, with the placeholders numbered anew from 1.
    pub fn fine_tune_params(&self) -> (out: String)
        ensures
            out@ == numbered_text(statement_parts(self@), 1),
    {
        self.statement().fine_tune_params()
    }

    /// The bound values, in the order of their placeholders in the
    /// parameterized text: those of the targets, then those of the
    /// condition.
    pub fn get_bindings(&self) -> (out: Vec<Binding>)
        ensures
            binding_views(out@) == slots(statement_parts(self@)),
    {
        self.statement().get_bindings()
    }

    /// Whether no name or text that the caller gave holds a dollar sign.
    /// Where this is so, the placeholders that stand in the parameterized
    /// text are, from left to right, those of the bindings list.
    pub fn is_placeholder_safe(&self) -> (out: bool)
        ensures
            out == texts_dollar_free(statement_parts(self@)),
            out ==> holds_placeholders(
                param_text(statement_parts(self@)),
                placeholder_names(slots(statement_parts(self@))),
            ),
    {
        self.statement().is_placeholder_safe()
    }

    /// The problems recorded so far: those of the targets, then those of
    /// the condition.
    pub fn get_errors(&self) -> (out: Vec<QueryError>)
        ensures
            error_views(out@) == query_problems(self@),
    {
        let mut out = clone_errors(&self.target_errors);
        match &self.where_ {
            Some(condition) => {
                let more = condition.get_errors();
                append_errors(&mut out, more);
            },
            None => {
                assert(error_views(out@) =~= query_problems(self@));
            },
        }
        out
    }
}

/// What a statement selects from: tables, records, or another statement.
#[derive(Debug)]
pub enum Targettables {
    Table(Table),
    Tables(Vec<Table>),
    SurrealId(SurrealId),
    SurrealIds(Vec<SurrealId>),
    /// A statement that was built before: its values are bound already.
    SubQuery(QueryBuilder),
}

/// The views of a list of record identifiers, each as a value.
pub open spec fn record_values(ids: Seq<SurrealId>) -> Seq<ValueView> {
    ids.map_values(|id: SurrealId| ValueView::Record(id@))
}

/// The views of a list of tables, each as a value.
pub open spec fn table_values(tables: Seq<Table>) -> Seq<ValueView> {
    tables.map_values(|t: Table| ValueView::Table(t@))
}

/// The values that a target binds anew, in their order: every table and
/// every record; none for a sub-query.
pub open spec fn target_values(t: Targettables) -> Seq<ValueView> {
    match t {
        Targettables::Table(table) => seq![ValueView::Table(table@)],
        Targettables::Tables(tables) => table_values(tables@),
        Targettables::SurrealId(id) => seq![ValueView::Record(id@)],
        Targettables::SurrealIds(ids) => record_values(ids@),
        Targettables::SubQuery(_) => Seq::empty(),
    }
}

/// The bindings of a target: new ones, numbered from `first`, for tables
/// and records; for a sub-query the bindings that it has.
pub open spec fn target_bindings(t: Targettables, first: nat) -> Seq<BindingView> {
    match t {
        Targettables::SubQuery(q) => slots(statement_parts(q@)),
        _ => numbered_bindings(target_values(t), first),
    }
}

/// A sub-query as a target: its whole text between parentheses.
pub open spec fn subquery_pieces(q: QueryView) -> Seq<PartView> {
    text_part("("@) + statement_parts(q) + text_part(")"@)
}

/// The entries that a target adds to a statement: one slot for each table
/// and each record, or the sub-query between parentheses.
pub open spec fn target_pieces(t: Targettables, first: nat) -> Seq<Seq<PartView>> {
    match t {
        Targettables::SubQuery(q) => seq![subquery_pieces(q@)],
        _ => numbered_bindings(target_values(t), first).map_values(|b: BindingView| slot_part(b)),
    }
}

/// The problems that a target brings with it: those of a sub-query, or
/// those of the values that it binds anew, numbered from `first`.
pub open spec fn target_problems(t: Targettables, first: nat) -> Seq<QueryErrorView> {
    match t {
        Targettables::SubQuery(q) => query_problems(q@),
        _ => bindings_problems(numbered_bindings(target_values(t), first)),
    }
}

impl Targettables {
    /// The values that the target binds anew.
    pub fn values(&self) -> (out: Vec<Value>)
        ensures
            value_views(out@) == target_values(*self),
    {
        let mut out: Vec<Value> = Vec::new();
        match self {
            Targettables::Table(table) => {
                let value = table.to_value();
                out.push(value);
                assert(value_views(out@) =~= target_values(*self));
            },
            Targettables::Tables(tables) => {
                let mut i: usize = 0;
                while i < tables.len()
                    invariant
                        i <= tables.len(),
                        value_views(out@) == table_values(tables@).take(i as int),
                    decreases tables.len() - i,
                {
                    let ghost before = out@;
                    let value = tables[i].to_value();
                    out.push(value);
                    assert(value_views(out@) =~= value_views(before).push(value@));
                    i = i + 1;
                    assert(value_views(out@) =~= table_values(tables@).take(i as int));
                }
                assert(table_values(tables@).take(i as int) =~= table_values(tables@));
            },
            Targettables::SurrealId(id) => {
                let value = Value::Record(id.clone());
                out.push(value);
                assert(value_views(out@) =~= target_values(*self));
            },
            Targettables::SurrealIds(ids) => {
                let mut i: usize = 0;
                while i < ids.len()
                    invariant
                        i <= ids.len(),
                        value_views(out@) == record_values(ids@).take(i as int),
                    decreases ids.len() - i,
                {
                    let ghost before = out@;
                    let value = Value::Record(ids[i].clone());
                    out.push(value);
                    assert(value_views(out@) =~= value_views(before).push(value@));
                    i = i + 1;
                    assert(value_views(out@) =~= record_values(ids@).take(i as int));
                }
                assert(record_values(ids@).take(i as int) =~= record_values(ids@));
            },
            Targettables::SubQuery(_) => {
                assert(value_views(out@) =~= target_values(*self));
            },
        }
        out
    }

    /// The bindings of the target. Every table name and every record
    /// identifier is bound to a new placeholder; a sub-query is not bound
    /// again, it hands on the bindings that it has.
    pub fn get_bindings(&self, alloc: &mut BindingAllocator) -> (out: Vec<Binding>)
        requires
            old(alloc).room() >= target_values(*self).len(),
        ensures
            binding_views(out@) == target_bindings(*self, old(alloc).next_id()),
            final(alloc).next_id() == old(alloc).next_id() + target_values(*self).len(),
    {
        match self {
            Targettables::SubQuery(query) => query.get_bindings(),
            _ => {
                let values = self.values();
                alloc.new_bindings(&values)
            },
        }
    }
}

/// A new statement that selects everything.
pub fn select(_all: All) -> (out: QueryBuilder)
    ensures
        out@ == (QueryView { projections: seq!["*"@], ..empty_query() }),
{
    let out = QueryBuilder::new().select_all();
    assert(out@.projections =~= seq!["*"@]);
    out
}

impl QueryBuilder {
    /// Adds targets, in their order, after those that are there. Table
    /// names and record identifiers are data: each is bound to a new
    /// placeholder, and only the placeholder stands in the text; one that
    /// cannot be bound is recorded as a problem. A sub-query is text that
    /// was rendered from bound values before: it is put in between
    /// parentheses as it is, with the bindings and the problems that it
    /// has.
    pub fn from(self, alloc: &mut BindingAllocator, targettables: Targettables) -> (out:
        QueryBuilder)
        requires
            old(alloc).room() >= target_values(targettables).len(),
        ensures
            out@ == (QueryView {
                targets: self@.targets + target_pieces(targettables, old(alloc).next_id()),
                target_errors: self@.target_errors + target_problems(
                    targettables,
                    old(alloc).next_id(),
                ),
                ..self@
            }),
            final(alloc).next_id() == old(alloc).next_id() + target_values(targettables).len(),
    {
        let mut out = self;
        let ghost first = alloc.next_id();
        let ghost old_targets = out.targets@;
        let bindings = targettables.get_bindings(alloc);
        match targettables {
            Targettables::SubQuery(query) => {
                let mut piece = Fragment::text("(");
                piece.push_fragment(query.statement());
                piece.push_text(")");
                out.targets.push(piece);
                let errors = query.get_errors();
                append_errors(&mut out.target_errors, errors);
                assert(fragment_views(out.targets@) =~= fragment_views(old_targets) + target_pieces(
                    targettables,
                    first,
                ));
            },
            _ => {
                let ghost pieces = target_pieces(targettables, first);
                validate_bindings(&bindings, &mut out.target_errors);
                let mut i: usize = 0;
                while i < bindings.len()
                    invariant
                        i <= bindings.len(),
                        pieces == binding_views(bindings@).map_values(
                            |b: BindingView| slot_part(b),
                        ),
                        fragment_views(out.targets@) == fragment_views(old_targets) + pieces.take(
                            i as int,
                        ),
                        error_views(out.target_errors@) == self@.target_errors + target_problems(
                            targettables,
                            first,
                        ),
                        out.projections == self.projections,
                        out.where_ == self.where_,
                        out.split == self.split,
                        out.group_by == self.group_by,
                        out.order_by == self.order_by,
                        out.limit == self.limit,
                        out.start == self.start,
                        out.fetch == self.fetch,
                        out.timeout == self.timeout,
                        out.parallel == self.parallel,
                    decreases bindings.len() - i,
                {
                    let ghost before = out.targets@;
                    let piece = Fragment::slot(bindings[i].clone());
                    out.targets.push(piece);
                    assert(fragment_views(out.targets@) =~= fragment_views(before).push(piece@));
                    i = i + 1;
                    assert(fragment_views(out.targets@) =~= fragment_views(old_targets)
                        + pieces.take(i as int));
                }
                assert(pieces.take(i as int) =~= pieces);
            },
        }
        out
    }
}

/// A statement as it is handed to the database: the parameterized text,
/// and beside it the values for its placeholders, in the order of the
/// text.
#[derive(Debug)]
pub struct Statement {
    pub text: String,
    pub bindings: Vec<Binding>,
}

impl QueryBuilder {
    /// The statement as it is handed to the database, where no problem was
    /// recorded; else the problems.
    pub fn finish(&self) -> (out: Result<Statement, InvalidQuery>)
        ensures
            out is Ok <==> query_problems(self@).len() == 0,
            out matches Ok(statement) ==> statement.text@ == param_text(statement_parts(self@))
                && binding_views(statement.bindings@) == slots(statement_parts(self@)),
            out matches Err(invalid) ==> error_views(invalid.errors@) == query_problems(self@),
    {
        let errors = self.get_errors();
        if errors.len() == 0 {
            let pieces = self.statement();
            Ok(Statement { text: pieces.build(), bindings: pieces.get_bindings() })
        } else {
            Err(InvalidQuery { errors })
        }
    }
}

/// The bindings of runs of pieces, run after run.
pub open spec fn flat_slots(items: Seq<Seq<PartView>>) -> Seq<BindingView>
    decreases items.len(),
{
    if items.len() == 0 {
        Seq::empty()
    } else {
        flat_slots(items.drop_last()) + slots(items.last())
    }
}

/// Separators bind nothing: the bindings of joined runs are those of the
/// runs, in their order.
pub proof fn lemma_joined_pieces_slots(items: Seq<Seq<PartView>>, sep: Seq<char>)
    ensures
        slots(joined_pieces(items, sep)) == flat_slots(items),
    decreases items.len(),
{
    if items.len() == 0 {
    } else if items.len() == 1 {
        assert(items.drop_last() =~= Seq::<Seq<PartView>>::empty());
        assert(flat_slots(items.drop_last()) =~= Seq::<BindingView>::empty());
        assert(items.last() == items[0]);
        assert(flat_slots(items) =~= slots(items[0]));
    } else {
        lemma_joined_pieces_slots(items.drop_last(), sep);
        lemma_text_part(sep);
        lemma_slots_concat(joined_pieces(items.drop_last(), sep), text_part(sep));
        lemma_slots_concat(
            joined_pieces(items.drop_last(), sep) + text_part(sep),
            items.last(),
        );
        assert(slots(joined_pieces(items, sep)) =~= flat_slots(items));
    }
}

/// The bindings of the condition of a statement; none where it has no
/// condition.
pub open spec fn condition_slots(condition: Option<Seq<PartView>>) -> Seq<BindingView> {
    match condition {
        Some(c) => slots(c),
        None => Seq::empty(),
    }
}

/// The bindings of a statement are merged in the order of its text: those
/// of the targets, target after target, then those of the condition. No
/// other section binds a value.
pub proof fn lemma_statement_bindings(q: QueryView)
    ensures
        slots(statement_parts(q)) == flat_slots(q.targets) + condition_slots(q.condition),
        slots(select_parts(q)) == slots(statement_parts(q)),
{
    let head = text_part(head_text(q));
    let targets = joined_pieces(q.targets, ", "@);
    let condition = condition_section(q.condition);
    let tail = text_part(tail_text(q));
    lemma_text_part(head_text(q));
    lemma_text_part(tail_text(q));
    lemma_text_part(";"@);
    lemma_text_part(" WHERE "@);
    lemma_joined_pieces_slots(q.targets, ", "@);
    lemma_slots_concat(head, targets);
    lemma_slots_concat(head + targets, condition);
    lemma_slots_concat(head + targets + condition, tail);
    lemma_slots_concat(select_parts(q), text_part(";"@));
    match q.condition {
        Some(c) => {
            lemma_slots_concat(text_part(" WHERE "@), c);
            assert(slots(condition) =~= slots(c));
        },
        None => {},
    }
    assert(slots(statement_parts(q)) =~= flat_slots(q.targets) + condition_slots(q.condition));
    assert(slots(select_parts(q)) =~= slots(statement_parts(q)));
}

/// Target binding asymmetry, first half: a table name as a target is
/// bound anew. It adds one entry to the targets, and the entry is one
/// placeholder.
pub proof fn lemma_table_target(table: Table, first: nat)
    ensures
        target_values(Targettables::Table(table)).len() == 1,
        target_bindings(Targettables::Table(table), first) == seq![
            BindingView { id: first, value: ValueView::Table(table@) },
        ],
        target_pieces(Targettables::Table(table), first) == seq![
            slot_part(BindingView { id: first, value: ValueView::Table(table@) }),
        ],
        flat_slots(target_pieces(Targettables::Table(table), first)) == target_bindings(
            Targettables::Table(table),
            first,
        ),
{
    let binding = BindingView { id: first, value: ValueView::Table(table@) };
    let target = Targettables::Table(table);
    assert(target_bindings(target, first) =~= seq![binding]);
    assert(target_pieces(target, first) =~= seq![slot_part(binding)]);
    lemma_slot_part(binding);
    assert(seq![slot_part(binding)].drop_last() =~= Seq::<Seq<PartView>>::empty());
    assert(flat_slots(seq![slot_part(binding)].drop_last()) =~= Seq::<BindingView>::empty());
    assert(flat_slots(seq![slot_part(binding)]) =~= seq![binding]);
}

/// Target binding asymmetry, second half: a sub-query as a target binds
/// nothing anew. It adds one entry to the targets, which is its own text
/// between parentheses, and its bindings are those that it had.
pub proof fn lemma_subquery_target(query: QueryBuilder, first: nat)
    ensures
        target_values(Targettables::SubQuery(query)).len() == 0,
        target_pieces(Targettables::SubQuery(query), first) == seq![subquery_pieces(query@)],
        target_bindings(Targettables::SubQuery(query), first) == slots(statement_parts(query@)),
        slots(subquery_pieces(query@)) == slots(statement_parts(query@)),
        param_text(subquery_pieces(query@)) == "("@ + param_text(statement_parts(query@)) + ")"@,
        raw_text(subquery_pieces(query@)) == "("@ + raw_text(statement_parts(query@)) + ")"@,
{
    let inner = statement_parts(query@);
    lemma_text_part("("@);
    lemma_text_part(")"@);
    lemma_slots_concat(text_part("("@), inner);
    lemma_slots_concat(text_part("("@) + inner, text_part(")"@));
    lemma_param_text_concat(text_part("("@), inner);
    lemma_param_text_concat(text_part("("@) + inner, text_part(")"@));
    lemma_raw_text_concat(text_part("("@), inner);
    lemma_raw_text_concat(text_part("("@) + inner, text_part(")"@));
    assert(slots(subquery_pieces(query@)) =~= slots(inner));
}

impl From<Table> for Targettables {
    /// One table to select from.
    fn from(value: Table) -> (out: Targettables)
        ensures
            out == Targettables::Table(value),
    {
        Targettables::Table(value)
    }
}

impl vstd::std_specs::convert::FromSpecImpl<Table> for Targettables {
    open spec fn obeys_from_spec() -> bool {
        true
    }

    open spec fn from_spec(value: Table) -> Targettables {
        Targettables::Table(value)
    }
}

impl From<Vec<Table>> for Targettables {
    /// Several tables to select from.
    fn from(value: Vec<Table>) -> (out: Targettables)
        ensures
            out == Targettables::Tables(value),
    {
        Targettables::Tables(value)
    }
}

impl vstd::std_specs::convert::FromSpecImpl<Vec<Table>> for Targettables {
    open spec fn obeys_from_spec() -> bool {
        true
    }

    open spec fn from_spec(value: Vec<Table>) -> Targettables {
        Targettables::Tables(value)
    }
}

impl From<SurrealId> for Targettables {
    /// One record to select.
    fn from(value: SurrealId) -> (out: Targettables)
        ensures
            out == Targettables::SurrealId(value),
    {
        Targettables::SurrealId(value)
    }
}

impl vstd::std_specs::convert::FromSpecImpl<SurrealId> for Targettables {
    open spec fn obeys_from_spec() -> bool {
        true
    }

    open spec fn from_spec(value: SurrealId) -> Targettables {
        Targettables::SurrealId(value)
    }
}

impl From<Vec<SurrealId>> for Targettables {
    /// Several records to select.
    fn from(value: Vec<SurrealId>) -> (out: Targettables)
        ensures
            out == Targettables::SurrealIds(value),
    {
        Targettables::SurrealIds(value)
    }
}

impl vstd::std_specs::convert::FromSpecImpl<Vec<SurrealId>> for Targettables {
    open spec fn obeys_from_spec() -> bool {
        true
    }

    open spec fn from_spec(value: Vec<SurrealId>) -> Targettables {
        Targettables::SurrealIds(value)
    }
}

impl From<QueryBuilder> for Targettables {
    /// A statement to select from.
    fn from(value: QueryBuilder) -> (out: Targettables)
        ensures
            out == Targettables::SubQuery(value),
    {
        Targettables::SubQuery(value)
    }
}

impl vstd::std_specs::convert::FromSpecImpl<QueryBuilder> for Targettables {
    open spec fn obeys_from_spec() -> bool {
        true
    }

    open spec fn from_spec(value: QueryBuilder) -> Targettables {
        Targettables::SubQuery(value)
    }
}

} // verus!
