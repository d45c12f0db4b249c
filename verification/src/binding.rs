//! Bindings, and the allocator that numbers their placeholders.

use crate::error::{error_views, QueryError, QueryErrorView};
use crate::text::{
    dollar_free, lemma_padded_injective, lemma_padded_is_dollar_free, padded, push_padded,
};
use crate::value::{bindable, Value, ValueView};
use vstd::prelude::*;

verus! {

/// The name of the placeholder with number `id`, such as `_param_00000001`.
pub open spec fn param_name(id: nat) -> Seq<char> {
    "_param_"@ + padded(id, 8)
}

/// The placeholder with number `id` as it stands in query text, with its
/// dollar sign.
pub open spec fn placeholder(id: nat) -> Seq<char> {
    seq!['$'] + param_name(id)
}

/// A value bound to a placeholder.
#[derive(Debug)]
pub struct Binding {
    id: u64,
    value: Value,
}

/// The mathematical form of a [`Binding`].
pub struct BindingView {
    pub id: nat,
    pub value: ValueView,
}

impl View for Binding {
    type V = BindingView;

    closed spec fn view(&self) -> BindingView {
        BindingView { id: self.id as nat, value: self.value@ }
    }
}

/// The views of a list of bindings.
pub open spec fn binding_views(bindings: Seq<Binding>) -> Seq<BindingView> {
    bindings.map_values(|b: Binding| b@)
}

impl Clone for Binding {
    fn clone(&self) -> (out: Self)
        ensures
            out@ == self@,
    {
        Binding { id: self.id, value: self.value.clone() }
    }
}

/// The problem of a binding, if it has one: its value cannot be bound.
pub open spec fn binding_problems(b: BindingView) -> Seq<QueryErrorView> {
    if bindable(b.value) {
        Seq::empty()
    } else {
        seq![QueryErrorView::UnbindableValue { placeholder: b.id }]
    }
}

/// The problems of a list of bindings, in the order of the bindings.
pub open spec fn bindings_problems(bindings: Seq<BindingView>) -> Seq<QueryErrorView>
    decreases bindings.len(),
{
    if bindings.len() == 0 {
        Seq::empty()
    } else {
        bindings_problems(bindings.drop_last()) + binding_problems(bindings.last())
    }
}

impl Binding {
    /// The number of the placeholder.
    pub fn get_id(&self) -> (out: u64)
        ensures
            out == self@.id,
    {
        self.id
    }

    /// The name of the placeholder.
    pub fn get_param(&self) -> (out: String)
        ensures
            out@ == param_name(self@.id),
    {
        let mut out = String::from_str("_param_");
        push_padded(&mut out, self.id, 8);
        out
    }

    /// The placeholder as it stands in query text.
    pub fn get_param_dollarised(&self) -> (out: String)
        ensures
            out@ == placeholder(self@.id),
    {
        let mut out = String::new();
        self.push_placeholder(&mut out);
        assert(out@ =~= placeholder(self@.id));
        out
    }

    /// Appends the placeholder as it stands in query text.
    pub fn push_placeholder(&self, out: &mut String)
        ensures
            final(out)@ == old(out)@ + placeholder(self@.id),
    {
        push_numbered_placeholder(out, self.id);
    }

    /// The bound value.
    pub fn get_value(&self) -> (out: &Value)
        ensures
            out@ == self@.value,
    {
        &self.value
    }

    /// Records the problem of the binding, if it has one, after those
    /// that are recorded.
    pub fn validate(&self, errors: &mut Vec<QueryError>)
        ensures
            error_views(final(errors)@) == error_views(old(errors)@) + binding_problems(self@),
    {
        if !self.value.is_bindable() {
            let error = QueryError::UnbindableValue { placeholder: self.id };
            errors.push(error);
            assert(error_views(errors@) =~= error_views(old(errors)@).push(error@));
        }
        assert(error_views(errors@) =~= error_views(old(errors)@) + binding_problems(self@));
    }
}

/// Appends the placeholder with number `id`.
pub fn push_numbered_placeholder(out: &mut String, id: u64)
    ensures
        final(out)@ == old(out)@ + placeholder(id as nat),
{
    proof {
        reveal_strlit("$");
    }
    out.append("$");
    out.append("_param_");
    push_padded(out, id, 8);
    assert(out@ =~= old(out)@ + placeholder(id as nat));
}

/// Records the problems of a list of bindings, in their order, after
/// those that are recorded.
pub fn validate_bindings(bindings: &Vec<Binding>, errors: &mut Vec<QueryError>)
    ensures
        error_views(final(errors)@) == error_views(old(errors)@) + bindings_problems(
            binding_views(bindings@),
        ),
{
    let ghost all = binding_views(bindings@);
    let mut i: usize = 0;
    assert(error_views(errors@) =~= error_views(old(errors)@) + bindings_problems(all.take(0)));
    while i < bindings.len()
        invariant
            i <= bindings.len(),
            all == binding_views(bindings@),
            error_views(errors@) == error_views(old(errors)@) + bindings_problems(
                all.take(i as int),
            ),
        decreases bindings.len() - i,
    {
        proof {
            assert(all.take(i as int + 1).drop_last() =~= all.take(i as int));
            assert(all.take(i as int + 1).last() == bindings[i as int]@);
        }
        bindings[i].validate(errors);
        i = i + 1;
        assert(error_views(errors@) =~= error_views(old(errors)@) + bindings_problems(
            all.take(i as int),
        ));
    }
    assert(all.take(i as int) =~= all);
}

/// The source of placeholder numbers. Each number is handed out once, in
/// rising order.
#[derive(Debug)]
pub struct BindingAllocator {
    next: u64,
}

impl BindingAllocator {
    /// The number that the next binding gets.
    pub closed spec fn next_id(&self) -> nat {
        self.next as nat
    }

    /// How many more bindings the allocator can number.
    pub open spec fn room(&self) -> int {
        u64::MAX - self.next_id()
    }

    /// An allocator whose first binding gets the number 1.
    pub fn new() -> (out: BindingAllocator)
        ensures
            out.next_id() == 1,
    {
        BindingAllocator { next: 1 }
    }

    /// Whether `count` more bindings can be numbered.
    pub fn has_room(&self, count: usize) -> (out: bool)
        ensures
            out == (count <= self.room()),
    {
        count as u64 <= u64::MAX - self.next
    }

    /// Binds `value` to a placeholder that no earlier binding of this
    /// allocator has.
    pub fn new_binding(&mut self, value: Value) -> (out: Binding)
        requires
            old(self).room() >= 1,
        ensures
            out@ == (BindingView { id: old(self).next_id(), value: value@ }),
            final(self).next_id() == old(self).next_id() + 1,
    {
        let id: u64 = self.next;
        self.next = id + 1;
        Binding { id, value }
    }
}

/// The views of a list of values.
pub open spec fn value_views(values: Seq<Value>) -> Seq<ValueView> {
    values.map_values(|v: Value| v@)
}

/// The bindings of `values`, numbered one after the other from `first`.
pub open spec fn numbered_bindings(values: Seq<ValueView>, first: nat) -> Seq<BindingView> {
    Seq::new(values.len(), |i: int| BindingView { id: (first + i) as nat, value: values[i] })
}

impl BindingAllocator {
    /// Binds each of `values`, in their order, to a placeholder of its
    /// own: the numbers rise by one from value to value.
    pub fn new_bindings(&mut self, values: &Vec<Value>) -> (out: Vec<Binding>)
        requires
            old(self).room() >= values.len(),
        ensures
            binding_views(out@) == numbered_bindings(value_views(values@), old(self).next_id()),
            final(self).next_id() == old(self).next_id() + values.len(),
    {
        let ghost all = value_views(values@);
        let ghost first = self.next_id();
        let mut out: Vec<Binding> = Vec::new();
        let mut i: usize = 0;
        while i < values.len()
            invariant
                i <= values.len(),
                out.len() == i,
                all == value_views(values@),
                binding_views(out@) == numbered_bindings(all, first).take(i as int),
                self.next_id() == first + i,
                first + values.len() <= u64::MAX,
            decreases values.len() - i,
        {
            let ghost before = out@;
            let binding = self.new_binding(values[i].clone());
            out.push(binding);
            assert(binding_views(out@) =~= binding_views(before).push(binding@));
            i = i + 1;
            assert(binding_views(out@) =~= numbered_bindings(all, first).take(i as int));
        }
        assert(numbered_bindings(all, first).take(i as int) =~= numbered_bindings(all, first));
        out
    }
}

/// Two placeholders with different numbers have different names.
pub proof fn lemma_param_names_distinct(a: nat, b: nat)
    requires
        a != b,
    ensures
        param_name(a) != param_name(b),
        placeholder(a) != placeholder(b),
{
    let prefix = "_param_"@;
    if param_name(a) == param_name(b) {
        assert(padded(a, 8) =~= param_name(a).skip(prefix.len() as int));
        assert(padded(b, 8) =~= param_name(b).skip(prefix.len() as int));
        lemma_padded_injective(a, b, 8);
    }
    if placeholder(a) == placeholder(b) {
        assert(param_name(a) =~= placeholder(a).skip(1));
        assert(param_name(b) =~= placeholder(b).skip(1));
    }
}

/// Placeholder uniqueness: bindings that one allocator makes one after
/// the other have strictly rising numbers and pairwise different
/// placeholder names, whatever their values, equal ones too.
pub proof fn lemma_placeholders_unique(values: Seq<ValueView>, first: nat, i: int, j: int)
    requires
        0 <= i < j < values.len(),
    ensures
        numbered_bindings(values, first)[i].id < numbered_bindings(values, first)[j].id,
        param_name(numbered_bindings(values, first)[i].id) != param_name(
            numbered_bindings(values, first)[j].id,
        ),
        placeholder(numbered_bindings(values, first)[i].id) != placeholder(
            numbered_bindings(values, first)[j].id,
        ),
{
    lemma_param_names_distinct(
        numbered_bindings(values, first)[i].id,
        numbered_bindings(values, first)[j].id,
    );
}

/// The name of a placeholder holds no dollar sign: the one before the name
/// is the only one of the placeholder.
pub proof fn lemma_param_name_has_no_dollar(id: nat)
    ensures
        dollar_free(param_name(id)),
{
    reveal_strlit("_param_");
    lemma_padded_is_dollar_free(id, 8);
    assert forall|i: int| 0 <= i < param_name(id).len() implies param_name(id)[i] != '$' by {
        if i >= 7 {
            assert(param_name(id)[i] == padded(id, 8)[i - 7]);
        }
    }
}

} // verus!
