//! Conditions: comparisons of a field with a value, joined by AND and OR.
//!
//! Every joining step puts both of its sides in parentheses, so no step
//! can change how an earlier one reads.

use crate::binding::{
    binding_problems, binding_views, Binding, BindingAllocator, BindingView,
};
use crate::error::{append_errors, clone_errors, error_views, QueryError, QueryErrorView};
use crate::field::Field;
use crate::fragment::{
    lemma_param_text_concat, lemma_raw_text_concat, lemma_slots_concat, lemma_text_part,
    numbered_text, param_text, raw_text, slot_part, slots, text_part, Fragment, PartView,
};
use crate::value::{Value, ValueView};
use vstd::prelude::*;

verus! {

/// The comparison that a leaf of a condition makes.
#[derive(Clone, Copy, Debug)]
pub enum Operator {
    Equal,
    NotEqual,
    ExactlyEqual,
    LessThan,
    LessThanOrEqual,
    GreaterThan,
    GreaterThanOrEqual,
    Is,
    IsNot,
    Like,
    NotLike,
}

/// The operator as it stands in query text.
pub open spec fn operator_symbol(op: Operator) -> Seq<char> {
    match op {
        Operator::Equal => "="@,
        Operator::NotEqual => "!="@,
        Operator::ExactlyEqual => "=="@,
        Operator::LessThan => "<"@,
        Operator::LessThanOrEqual => "<="@,
        Operator::GreaterThan => ">"@,
        Operator::GreaterThanOrEqual => ">="@,
        Operator::Is => "IS"@,
        Operator::IsNot => "IS NOT"@,
        Operator::Like => "~"@,
        Operator::NotLike => "!~"@,
    }
}

impl Operator {
    /// The operator as it stands in query text.
    pub fn symbol(&self) -> (out: &'static str)
        ensures
            out@ == operator_symbol(*self),
    {
        match self {
            Operator::Equal => "=",
            Operator::NotEqual => "!=",
            Operator::ExactlyEqual => "==",
            Operator::LessThan => "<",
            Operator::LessThanOrEqual => "<=",
            Operator::GreaterThan => ">",
            Operator::GreaterThanOrEqual => ">=",
            Operator::Is => "IS",
            Operator::IsNot => "IS NOT",
            Operator::Like => "~",
            Operator::NotLike => "!~",
        }
    }
}

/// The right-hand side of a comparison: the name of a field as it is, any
/// other value behind the placeholder with number `id`.
pub open spec fn operand_parts(value: ValueView, id: nat) -> Seq<PartView> {
    match value {
        ValueView::Field(name) => text_part(name),
        _ => slot_part(BindingView { id, value }),
    }
}

/// The problem of the right-hand side of a comparison, if it has one: its
/// value is bound and cannot be.
pub open spec fn operand_problems(value: ValueView, id: nat) -> Seq<QueryErrorView> {
    match value {
        ValueView::Field(_) => Seq::empty(),
        _ => binding_problems(BindingView { id, value }),
    }
}

/// How many bindings the right-hand side of a comparison takes.
pub open spec fn operand_bindings(value: ValueView) -> nat {
    match value {
        ValueView::Field(_) => 0,
        _ => 1,
    }
}

/// A comparison: the field, the operator and the right-hand side, with one
/// space between them.
pub open spec fn comparison_parts(
    field: Seq<char>,
    op: Operator,
    value: ValueView,
    id: nat,
) -> Seq<PartView> {
    text_part(field + " "@ + operator_symbol(op) + " "@) + operand_parts(value, id)
}

/// Two conditions joined by `word`, each in parentheses.
pub open spec fn joined_parts(
    left: Seq<PartView>,
    word: Seq<char>,
    right: Seq<PartView>,
) -> Seq<PartView> {
    text_part("("@) + left + text_part(") "@ + word + " ("@) + right + text_part(")"@)
}

/// `(left) AND (right)`.
pub open spec fn and_parts(left: Seq<PartView>, right: Seq<PartView>) -> Seq<PartView> {
    joined_parts(left, "AND"@, right)
}

/// `(left) OR (right)`.
pub open spec fn or_parts(left: Seq<PartView>, right: Seq<PartView>) -> Seq<PartView> {
    joined_parts(left, "OR"@, right)
}

/// Two conditions joined, as text: each side in parentheses, with the
/// joining word between them; the bindings of the left side come first.
pub proof fn lemma_joined_text(left: Seq<PartView>, word: Seq<char>, right: Seq<PartView>)
    ensures
        param_text(joined_parts(left, word, right)) == "("@ + param_text(left) + (") "@ + word
            + " ("@) + param_text(right) + ")"@,
        raw_text(joined_parts(left, word, right)) == "("@ + raw_text(left) + (") "@ + word + " ("@)
            + raw_text(right) + ")"@,
        slots(joined_parts(left, word, right)) == slots(left) + slots(right),
{
    let open = text_part("("@);
    let middle = text_part(") "@ + word + " ("@);
    let close = text_part(")"@);
    lemma_text_part("("@);
    lemma_text_part(") "@ + word + " ("@);
    lemma_text_part(")"@);
    lemma_param_text_concat(open, left);
    lemma_param_text_concat(open + left, middle);
    lemma_param_text_concat(open + left + middle, right);
    lemma_param_text_concat(open + left + middle + right, close);
    lemma_raw_text_concat(open, left);
    lemma_raw_text_concat(open + left, middle);
    lemma_raw_text_concat(open + left + middle, right);
    lemma_raw_text_concat(open + left + middle + right, close);
    lemma_slots_concat(open, left);
    lemma_slots_concat(open + left, middle);
    lemma_slots_concat(open + left + middle, right);
    lemma_slots_concat(open + left + middle + right, close);
    assert(slots(joined_parts(left, word, right)) =~= slots(left) + slots(right));
}

/// In a text that begins with two opening parentheses and then `a`, and
/// that also begins with one opening parenthesis and then `a`, every
/// character up to the end of `a` is an opening parenthesis.
proof fn lemma_run_of_parentheses(text: Seq<char>, a: Seq<char>, k: int)
    requires
        text.len() >= a.len() + 2,
        text[1] == '(',
        forall|i: int| 0 <= i < a.len() ==> text[2 + i] == a[i] && text[1 + i] == a[i],
        1 <= k <= a.len() + 1,
    ensures
        text[k] == '(',
    decreases k,
{
    if k > 1 {
        lemma_run_of_parentheses(text, a, k - 1);
        assert(text[2 + (k - 2)] == a[k - 2]);
        assert(text[1 + (k - 2)] == a[k - 2]);
    }
}

/// The text `((a) AND (b)) OR (c)` differs from the text
/// `(a) AND ((b) OR (c))`, whatever `a`, `b` and `c` are.
pub proof fn lemma_groupings_differ(a: Seq<char>, b: Seq<char>, c: Seq<char>)
    ensures
        "("@ + ("("@ + a + (") "@ + "AND"@ + " ("@) + b + ")"@) + (") "@ + "OR"@ + " ("@) + c + ")"@
            != "("@ + a + (") "@ + "AND"@ + " ("@) + ("("@ + b + (") "@ + "OR"@ + " ("@) + c + ")"@)
            + ")"@,
{
    reveal_strlit("(");
    reveal_strlit(") ");
    reveal_strlit(" (");
    reveal_strlit(")");
    reveal_strlit("AND");
    reveal_strlit("OR");
    let first = "("@ + ("("@ + a + (") "@ + "AND"@ + " ("@) + b + ")"@) + (") "@ + "OR"@ + " ("@)
        + c + ")"@;
    let second = "("@ + a + (") "@ + "AND"@ + " ("@) + ("("@ + b + (") "@ + "OR"@ + " ("@) + c
        + ")"@) + ")"@;
    if first == second {
        assert(first[1] == '(');
        assert forall|i: int| 0 <= i < a.len() implies first[2 + i] == a[i] && first[1 + i]
            == a[i] by {
            assert(second[1 + i] == a[i]);
        }
        lemma_run_of_parentheses(first, a, a.len() as int + 1);
        assert(second[a.len() as int + 1] == ')');
    }
}

/// Precedence safety: `a.and(b).or(c)` reads `((a) AND (b)) OR (c)`, in
/// both renderings, and so differs from `a.and(b.or(c))`, which reads
/// `(a) AND ((b) OR (c))`.
pub proof fn lemma_precedence(a: Seq<PartView>, b: Seq<PartView>, c: Seq<PartView>)
    ensures
        raw_text(or_parts(and_parts(a, b), c)) == "("@ + ("("@ + raw_text(a) + (") "@ + "AND"@
            + " ("@) + raw_text(b) + ")"@) + (") "@ + "OR"@ + " ("@) + raw_text(c) + ")"@,
        param_text(or_parts(and_parts(a, b), c)) == "("@ + ("("@ + param_text(a) + (") "@ + "AND"@
            + " ("@) + param_text(b) + ")"@) + (") "@ + "OR"@ + " ("@) + param_text(c) + ")"@,
        raw_text(or_parts(and_parts(a, b), c)) != raw_text(and_parts(a, or_parts(b, c))),
        param_text(or_parts(and_parts(a, b), c)) != param_text(and_parts(a, or_parts(b, c))),
        slots(or_parts(and_parts(a, b), c)) == slots(a) + slots(b) + slots(c),
{
    lemma_joined_text(a, "AND"@, b);
    lemma_joined_text(and_parts(a, b), "OR"@, c);
    lemma_joined_text(b, "OR"@, c);
    lemma_joined_text(a, "AND"@, or_parts(b, c));
    lemma_groupings_differ(raw_text(a), raw_text(b), raw_text(c));
    lemma_groupings_differ(param_text(a), param_text(b), param_text(c));
}

/// A condition, with the problems found while it was built.
#[derive(Debug)]
pub struct Filter {
    body: Fragment,
    errors: Vec<QueryError>,
}

impl View for Filter {
    type V = Seq<PartView>;

    closed spec fn view(&self) -> Seq<PartView> {
        self.body@
    }
}

impl Clone for Filter {
    fn clone(&self) -> (out: Self)
        ensures
            out@ == self@,
            out.problems() == self.problems(),
    {
        Filter { body: self.body.clone(), errors: clone_errors(&self.errors) }
    }
}

impl Filter {
    /// The problems found while the condition was built, in the order of
    /// its leaves.
    pub closed spec fn problems(&self) -> Seq<QueryErrorView> {
        error_views(self.errors@)
    }

    /// The condition that `condition` states.
    pub fn new(condition: Filter) -> (out: Filter)
        ensures
            out@ == condition@,
            out.problems() == condition.problems(),
    {
        condition
    }

    /// The condition that says nothing: no text, no bindings.
    pub fn empty() -> (out: Filter)
        ensures
            out@ == Seq::<PartView>::empty(),
            out.problems() == Seq::<QueryErrorView>::empty(),
    {
        let out = Filter { body: Fragment::new(), errors: Vec::new() };
        assert(out.problems() =~= Seq::<QueryErrorView>::empty());
        out
    }

    /// A condition made of given pieces and problems.
    pub fn from_parts(body: Fragment, errors: Vec<QueryError>) -> (out: Filter)
        ensures
            out@ == body@,
            out.problems() == error_views(errors@),
    {
        Filter { body, errors }
    }

    /// The pieces and the problems of the condition.
    pub fn into_parts(self) -> (out: (Fragment, Vec<QueryError>))
        ensures
            out.0@ == self@,
            error_views(out.1@) == self.problems(),
    {
        (self.body, self.errors)
    }

    fn join(self, word: &str, other: Filter) -> (out: Filter)
        ensures
            out@ == joined_parts(self@, word@, other@),
            out.problems() == self.problems() + other.problems(),
    {
        let mut body = Fragment::text("(");
        body.push_fragment(self.body);
        let mut middle = String::from_str(") ");
        middle.append(word);
        middle.append(" (");
        body.push_text(middle.as_str());
        body.push_fragment(other.body);
        body.push_text(")");
        let mut errors = self.errors;
        append_errors(&mut errors, other.errors);
        Filter { body, errors }
    }

    /// Both conditions: `(self) AND (other)`. The bindings and the
    /// problems of `self` come first.
    pub fn and(self, other: Filter) -> (out: Filter)
        ensures
            out@ == and_parts(self@, other@),
            out.problems() == self.problems() + other.problems(),
    {
        self.join("AND", other)
    }

    /// Either condition: `(self) OR (other)`. The bindings and the
    /// problems of `self` come first.
    pub fn or(self, other: Filter) -> (out: Filter)
        ensures
            out@ == or_parts(self@, other@),
            out.problems() == self.problems() + other.problems(),
    {
        self.join("OR", other)
    }

    /// The parameterized text of the condition.
    pub fn build(&self) -> (out: String)
        ensures
            out@ == param_text(self@),
    {
        self.body.build()
    }

    /// The raw text of the condition.
    pub fn to_raw(&self) -> (out: String)
        ensures
            out@ == raw_text(self@),
    {
        self.body.to_raw()
    }

    /// The parameterized text, with the placeholders numbered anew from 1.
    pub fn fine_tune_params(&self) -> (out: String)
        ensures
            out@ == numbered_text(self@, 1),
    {
        self.body.fine_tune_params()
    }

    /// The bound values, in the order of their placeholders.
    pub fn get_bindings(&self) -> (out: Vec<Binding>)
        ensures
            binding_views(out@) == slots(self@),
    {
        self.body.get_bindings()
    }

    /// The problems found while the condition was built.
    pub fn get_errors(&self) -> (out: Vec<QueryError>)
        ensures
            error_views(out@) == self.problems(),
    {
        clone_errors(&self.errors)
    }
}

/// Starts a condition that `and` and `or` can extend.
pub fn cond(condition: Filter) -> (out: Filter)
    ensures
        out@ == condition@,
        out.problems() == condition.problems(),
{
    Filter::new(condition)
}

impl Field {
    /// Compares the field with `value`. A value is bound to a new
    /// placeholder; the name of another field is written as it is. A
    /// value that cannot be bound is recorded as a problem.
    pub fn compare(&self, alloc: &mut BindingAllocator, op: Operator, value: Value) -> (out: Filter)
        requires
            old(alloc).room() >= operand_bindings(value@),
        ensures
            out@ == comparison_parts(self@, op, value@, old(alloc).next_id()),
            out.problems() == operand_problems(value@, old(alloc).next_id()),
            final(alloc).next_id() == old(alloc).next_id() + operand_bindings(value@),
    {
        let mut head = self.build();
        head.append(" ");
        head.append(op.symbol());
        head.append(" ");
        let mut body = Fragment::text(head.as_str());
        let mut errors: Vec<QueryError> = Vec::new();
        match value {
            Value::Field(name) => {
                body.push_text(name.as_str());
            },
            other => {
                let binding = alloc.new_binding(other);
                binding.validate(&mut errors);
                body.push_binding(binding);
            },
        }
        assert(error_views(errors@) =~= operand_problems(value@, old(alloc).next_id()));
        Filter::from_parts(body, errors)
    }

    /// `field = value`.
    pub fn equal(&self, alloc: &mut BindingAllocator, value: Value) -> (out: Filter)
        requires
            old(alloc).room() >= operand_bindings(value@),
        ensures
            out@ == comparison_parts(self@, Operator::Equal, value@, old(alloc).next_id()),
            out.problems() == operand_problems(value@, old(alloc).next_id()),
            final(alloc).next_id() == old(alloc).next_id() + operand_bindings(value@),
    {
        self.compare(alloc, Operator::Equal, value)
    }

    /// `field IS value`.
    pub fn is(&self, alloc: &mut BindingAllocator, value: Value) -> (out: Filter)
        requires
            old(alloc).room() >= operand_bindings(value@),
        ensures
            out@ == comparison_parts(self@, Operator::Is, value@, old(alloc).next_id()),
            out.problems() == operand_problems(value@, old(alloc).next_id()),
            final(alloc).next_id() == old(alloc).next_id() + operand_bindings(value@),
    {
        self.compare(alloc, Operator::Is, value)
    }

    /// `field != value`.
    pub fn not_equal(&self, alloc: &mut BindingAllocator, value: Value) -> (out: Filter)
        requires
            old(alloc).room() >= operand_bindings(value@),
        ensures
            out@ == comparison_parts(self@, Operator::NotEqual, value@, old(alloc).next_id()),
            out.problems() == operand_problems(value@, old(alloc).next_id()),
            final(alloc).next_id() == old(alloc).next_id() + operand_bindings(value@),
    {
        self.compare(alloc, Operator::NotEqual, value)
    }

    /// `field == value`.
    pub fn exactly_equal(&self, alloc: &mut BindingAllocator, value: Value) -> (out: Filter)
        requires
            old(alloc).room() >= operand_bindings(value@),
        ensures
            out@ == comparison_parts(self@, Operator::ExactlyEqual, value@, old(alloc).next_id()),
            out.problems() == operand_problems(value@, old(alloc).next_id()),
            final(alloc).next_id() == old(alloc).next_id() + operand_bindings(value@),
    {
        self.compare(alloc, Operator::ExactlyEqual, value)
    }

    /// `field < value`.
    pub fn less_than(&self, alloc: &mut BindingAllocator, value: Value) -> (out: Filter)
        requires
            old(alloc).room() >= operand_bindings(value@),
        ensures
            out@ == comparison_parts(self@, Operator::LessThan, value@, old(alloc).next_id()),
            out.problems() == operand_problems(value@, old(alloc).next_id()),
            final(alloc).next_id() == old(alloc).next_id() + operand_bindings(value@),
    {
        self.compare(alloc, Operator::LessThan, value)
    }

    /// `field <= value`.
    pub fn less_than_or_equal(&self, alloc: &mut BindingAllocator, value: Value) -> (out: Filter)
        requires
            old(alloc).room() >= operand_bindings(value@),
        ensures
            out@ == comparison_parts(self@, Operator::LessThanOrEqual, value@, old(alloc).next_id()),
            out.problems() == operand_problems(value@, old(alloc).next_id()),
            final(alloc).next_id() == old(alloc).next_id() + operand_bindings(value@),
    {
        self.compare(alloc, Operator::LessThanOrEqual, value)
    }

    /// `field > value`.
    pub fn greater_than(&self, alloc: &mut BindingAllocator, value: Value) -> (out: Filter)
        requires
            old(alloc).room() >= operand_bindings(value@),
        ensures
            out@ == comparison_parts(self@, Operator::GreaterThan, value@, old(alloc).next_id()),
            out.problems() == operand_problems(value@, old(alloc).next_id()),
            final(alloc).next_id() == old(alloc).next_id() + operand_bindings(value@),
    {
        self.compare(alloc, Operator::GreaterThan, value)
    }

    /// `field >= value`.
    pub fn greater_than_or_equal(&self, alloc: &mut BindingAllocator, value: Value) -> (out: Filter)
        requires
            old(alloc).room() >= operand_bindings(value@),
        ensures
            out@ == comparison_parts(self@, Operator::GreaterThanOrEqual, value@, old(alloc).next_id()),
            out.problems() == operand_problems(value@, old(alloc).next_id()),
            final(alloc).next_id() == old(alloc).next_id() + operand_bindings(value@),
    {
        self.compare(alloc, Operator::GreaterThanOrEqual, value)
    }

    /// `field IS NOT value`.
    pub fn is_not(&self, alloc: &mut BindingAllocator, value: Value) -> (out: Filter)
        requires
            old(alloc).room() >= operand_bindings(value@),
        ensures
            out@ == comparison_parts(self@, Operator::IsNot, value@, old(alloc).next_id()),
            out.problems() == operand_problems(value@, old(alloc).next_id()),
            final(alloc).next_id() == old(alloc).next_id() + operand_bindings(value@),
    {
        self.compare(alloc, Operator::IsNot, value)
    }

    /// `field ~ value`.
    pub fn like(&self, alloc: &mut BindingAllocator, value: Value) -> (out: Filter)
        requires
            old(alloc).room() >= operand_bindings(value@),
        ensures
            out@ == comparison_parts(self@, Operator::Like, value@, old(alloc).next_id()),
            out.problems() == operand_problems(value@, old(alloc).next_id()),
            final(alloc).next_id() == old(alloc).next_id() + operand_bindings(value@),
    {
        self.compare(alloc, Operator::Like, value)
    }

    /// `field !~ value`.
    pub fn not_like(&self, alloc: &mut BindingAllocator, value: Value) -> (out: Filter)
        requires
            old(alloc).room() >= operand_bindings(value@),
        ensures
            out@ == comparison_parts(self@, Operator::NotLike, value@, old(alloc).next_id()),
            out.problems() == operand_problems(value@, old(alloc).next_id()),
            final(alloc).next_id() == old(alloc).next_id() + operand_bindings(value@),
    {
        self.compare(alloc, Operator::NotLike, value)
    }
}

} // verus!
