//! Query text in pieces: plain text, and slots that hold a binding.
//!
//! Both renderings of a query are read off the same pieces. The
//! parameterized text writes each slot as its placeholder, the raw text as
//! the literal of its value, and the bindings list is the slots in order.

use crate::binding::{
    binding_views, param_name, placeholder, push_numbered_placeholder, Binding, BindingView,
};
use crate::text::{dollar_free, lacks_char};
use crate::value::value_literal;
use vstd::prelude::*;

verus! {

/// One piece of query text.
#[derive(Debug)]
pub enum Part {
    /// Text that is written as it is.
    Text(String),
    /// The place of a bound value.
    Slot(Binding),
}

/// The mathematical form of a [`Part`].
pub enum PartView {
    Text(Seq<char>),
    Slot(BindingView),
}

impl View for Part {
    type V = PartView;

    open spec fn view(&self) -> PartView {
        match self {
            Part::Text(s) => PartView::Text(s@),
            Part::Slot(b) => PartView::Slot(b@),
        }
    }
}

impl Clone for Part {
    fn clone(&self) -> (out: Self)
        ensures
            out@ == self@,
    {
        match self {
            Part::Text(s) => Part::Text(s.clone()),
            Part::Slot(b) => Part::Slot(b.clone()),
        }
    }
}

/// The views of a list of parts.
pub open spec fn part_views(parts: Seq<Part>) -> Seq<PartView> {
    parts.map_values(|p: Part| p@)
}

/// A single piece of text.
pub open spec fn text_part(s: Seq<char>) -> Seq<PartView> {
    seq![PartView::Text(s)]
}

/// A single slot.
pub open spec fn slot_part(b: BindingView) -> Seq<PartView> {
    seq![PartView::Slot(b)]
}

/// The parameterized text of the pieces: each slot is its placeholder.
pub open spec fn param_text(parts: Seq<PartView>) -> Seq<char>
    decreases parts.len(),
{
    if parts.len() == 0 {
        Seq::empty()
    } else {
        param_text(parts.drop_last()) + match parts.last() {
            PartView::Text(s) => s,
            PartView::Slot(b) => placeholder(b.id),
        }
    }
}

/// The raw text of the pieces: each slot is the literal of its value.
pub open spec fn raw_text(parts: Seq<PartView>) -> Seq<char>
    decreases parts.len(),
{
    if parts.len() == 0 {
        Seq::empty()
    } else {
        raw_text(parts.drop_last()) + match parts.last() {
            PartView::Text(s) => s,
            PartView::Slot(b) => value_literal(b.value),
        }
    }
}

/// The bindings of the pieces, in the order of their slots.
pub open spec fn slots(parts: Seq<PartView>) -> Seq<BindingView>
    decreases parts.len(),
{
    if parts.len() == 0 {
        Seq::empty()
    } else {
        match parts.last() {
            PartView::Text(_) => slots(parts.drop_last()),
            PartView::Slot(b) => slots(parts.drop_last()).push(b),
        }
    }
}

/// The parameterized text with the placeholders numbered anew: the slots
/// get `first`, `first + 1` and so on, in their order.
pub open spec fn numbered_text(parts: Seq<PartView>, first: nat) -> Seq<char>
    decreases parts.len(),
{
    if parts.len() == 0 {
        Seq::empty()
    } else {
        numbered_text(parts.drop_last(), first) + match parts.last() {
            PartView::Text(s) => s,
            PartView::Slot(_) => placeholder(first + slots(parts.drop_last()).len()),
        }
    }
}

/// The parameterized text of pieces put one after the other is their texts
/// put one after the other.
pub proof fn lemma_param_text_concat(a: Seq<PartView>, b: Seq<PartView>)
    ensures
        param_text(a + b) == param_text(a) + param_text(b),
    decreases b.len(),
{
    if b.len() == 0 {
        assert(a + b =~= a);
    } else {
        lemma_param_text_concat(a, b.drop_last());
        assert((a + b).drop_last() =~= a + b.drop_last());
    }
}

/// The raw text of pieces put one after the other is their raw texts put
/// one after the other.
pub proof fn lemma_raw_text_concat(a: Seq<PartView>, b: Seq<PartView>)
    ensures
        raw_text(a + b) == raw_text(a) + raw_text(b),
    decreases b.len(),
{
    if b.len() == 0 {
        assert(a + b =~= a);
    } else {
        lemma_raw_text_concat(a, b.drop_last());
        assert((a + b).drop_last() =~= a + b.drop_last());
    }
}

/// The bindings of pieces put one after the other are their bindings put
/// one after the other.
pub proof fn lemma_slots_concat(a: Seq<PartView>, b: Seq<PartView>)
    ensures
        slots(a + b) == slots(a) + slots(b),
    decreases b.len(),
{
    if b.len() == 0 {
        assert(a + b =~= a);
    } else {
        lemma_slots_concat(a, b.drop_last());
        assert((a + b).drop_last() =~= a + b.drop_last());
    }
}

/// What a single piece of text renders as.
pub proof fn lemma_text_part(s: Seq<char>)
    ensures
        param_text(text_part(s)) == s,
        raw_text(text_part(s)) == s,
        slots(text_part(s)) == Seq::<BindingView>::empty(),
        forall|first: nat| numbered_text(text_part(s), first) == s,
{
    reveal_with_fuel(param_text, 2);
    reveal_with_fuel(raw_text, 2);
    reveal_with_fuel(numbered_text, 2);
    reveal_with_fuel(slots, 2);
    assert(text_part(s).drop_last() =~= Seq::<PartView>::empty());
    assert(param_text(text_part(s)) =~= s);
    assert(raw_text(text_part(s)) =~= s);
    assert forall|first: nat| numbered_text(text_part(s), first) == s by {
        assert(numbered_text(text_part(s), first) =~= s);
    }
}

/// What a single slot renders as.
pub proof fn lemma_slot_part(b: BindingView)
    ensures
        param_text(slot_part(b)) == placeholder(b.id),
        raw_text(slot_part(b)) == value_literal(b.value),
        slots(slot_part(b)) == seq![b],
        forall|first: nat| numbered_text(slot_part(b), first) == placeholder(first),
{
    reveal_with_fuel(param_text, 2);
    reveal_with_fuel(raw_text, 2);
    reveal_with_fuel(numbered_text, 2);
    reveal_with_fuel(slots, 2);
    assert(slot_part(b).drop_last() =~= Seq::<PartView>::empty());
    assert(param_text(slot_part(b)) =~= placeholder(b.id));
    assert(raw_text(slot_part(b)) =~= value_literal(b.value));
    assert(slots(slot_part(b)) =~= seq![b]);
    assert forall|first: nat| numbered_text(slot_part(b), first) == placeholder(first) by {
        assert(numbered_text(slot_part(b), first) =~= placeholder(first));
    }
}

/// The two renderings differ only where a value is bound: pieces without
/// a slot read the same in both.
pub proof fn lemma_renderings_agree_without_slots(parts: Seq<PartView>)
    requires
        slots(parts).len() == 0,
    ensures
        param_text(parts) == raw_text(parts),
    decreases parts.len(),
{
    if parts.len() > 0 {
        match parts.last() {
            PartView::Text(_) => {
                lemma_renderings_agree_without_slots(parts.drop_last());
            },
            PartView::Slot(_) => {},
        }
    }
}

/// Whether no piece of text among `parts` holds a dollar sign, so that
/// every dollar sign of the parameterized text begins a placeholder.
pub open spec fn texts_dollar_free(parts: Seq<PartView>) -> bool {
    forall|i: int|
        0 <= i < parts.len() ==> (#[trigger] parts[i] matches PartView::Text(s) ==> dollar_free(s))
}

/// The names of the placeholders of the bindings, in their order.
pub open spec fn placeholder_names(bindings: Seq<BindingView>) -> Seq<Seq<char>> {
    bindings.map_values(|b: BindingView| param_name(b.id))
}

/// Whether the first dollar sign of `text` stands at `i` and the
/// placeholder called `name` begins there.
pub open spec fn placeholder_at(text: Seq<char>, name: Seq<char>, i: int) -> bool {
    &&& 0 <= i
    &&& i + 1 + name.len() <= text.len()
    &&& dollar_free(text.take(i))
    &&& text[i] == '$'
    &&& text.subrange(i + 1, i + 1 + name.len()) == name
}

/// Whether the placeholders that stand in `text` are those called `names`,
/// from left to right: the text is a run without a dollar sign, then a
/// dollar sign and the first name, then the rest of the text with the rest
/// of the names; after the last name no dollar sign follows.
pub open spec fn holds_placeholders(text: Seq<char>, names: Seq<Seq<char>>) -> bool
    decreases names.len(),
{
    if names.len() == 0 {
        dollar_free(text)
    } else {
        exists|i: int|
            #[trigger] placeholder_at(text, names[0], i) && holds_placeholders(
                text.skip(i + 1 + names[0].len()),
                names.drop_first(),
            )
    }
}

/// Text without a dollar sign, put after a text, leaves its placeholders
/// as they are.
pub proof fn lemma_placeholders_then_text(text: Seq<char>, names: Seq<Seq<char>>, more: Seq<char>)
    requires
        holds_placeholders(text, names),
        dollar_free(more),
    ensures
        holds_placeholders(text + more, names),
    decreases names.len(),
{
    if names.len() > 0 {
        let i = choose|i: int|
            #[trigger] placeholder_at(text, names[0], i) && holds_placeholders(
                text.skip(i + 1 + names[0].len()),
                names.drop_first(),
            );
        let end = i + 1 + names[0].len();
        lemma_placeholders_then_text(text.skip(end), names.drop_first(), more);
        assert((text + more).take(i) =~= text.take(i));
        assert((text + more).subrange(i + 1, end) =~= text.subrange(i + 1, end));
        assert((text + more).skip(end) =~= text.skip(end) + more);
        assert(placeholder_at(text + more, names[0], i));
    }
}

/// A placeholder, put after a text, is one more placeholder after those
/// of the text.
pub proof fn lemma_placeholders_then_placeholder(
    text: Seq<char>,
    names: Seq<Seq<char>>,
    name: Seq<char>,
)
    requires
        holds_placeholders(text, names),
    ensures
        holds_placeholders(text + (seq!['$'] + name), names.push(name)),
    decreases names.len(),
{
    let whole = text + (seq!['$'] + name);
    let all = names.push(name);
    if names.len() == 0 {
        let i = text.len() as int;
        assert(whole.take(i) =~= text);
        assert(whole.subrange(i + 1, i + 1 + name.len()) =~= name);
        assert(whole.skip(i + 1 + name.len()) =~= Seq::<char>::empty());
        assert(all.drop_first() =~= Seq::<Seq<char>>::empty());
        assert(holds_placeholders(whole.skip(i + 1 + name.len()), all.drop_first()));
        assert(placeholder_at(whole, all[0], i));
    } else {
        let i = choose|i: int|
            #[trigger] placeholder_at(text, names[0], i) && holds_placeholders(
                text.skip(i + 1 + names[0].len()),
                names.drop_first(),
            );
        let end = i + 1 + names[0].len();
        lemma_placeholders_then_placeholder(text.skip(end), names.drop_first(), name);
        assert(whole.take(i) =~= text.take(i));
        assert(whole.subrange(i + 1, end) =~= text.subrange(i + 1, end));
        assert(whole.skip(end) =~= text.skip(end) + (seq!['$'] + name));
        assert(all.drop_first() =~= names.drop_first().push(name));
        assert(placeholder_at(whole, all[0], i));
    }
}

/// Binding and placeholder correspond: where no piece of text holds a
/// dollar sign, the placeholders that stand in the parameterized text are,
/// from left to right, those of the bindings list, each once.
pub proof fn lemma_placeholders_match_bindings(parts: Seq<PartView>)
    requires
        texts_dollar_free(parts),
    ensures
        holds_placeholders(param_text(parts), placeholder_names(slots(parts))),
    decreases parts.len(),
{
    if parts.len() == 0 {
        assert(placeholder_names(slots(parts)) =~= Seq::<Seq<char>>::empty());
    } else {
        let init = parts.drop_last();
        assert forall|i: int| 0 <= i < init.len() implies (#[trigger] init[i] matches PartView::Text(
            s,
        ) ==> dollar_free(s)) by {
            assert(init[i] == parts[i]);
        }
        lemma_placeholders_match_bindings(init);
        match parts.last() {
            PartView::Text(s) => {
                assert(parts[parts.len() - 1] == parts.last());
                lemma_placeholders_then_text(
                    param_text(init),
                    placeholder_names(slots(init)),
                    s,
                );
            },
            PartView::Slot(b) => {
                lemma_placeholders_then_placeholder(
                    param_text(init),
                    placeholder_names(slots(init)),
                    param_name(b.id),
                );
                assert(placeholder_names(slots(parts)) =~= placeholder_names(slots(init)).push(
                    param_name(b.id),
                ));
            },
        }
    }
}

/// Query text in pieces.
#[derive(Debug)]
pub struct Fragment {
    parts: Vec<Part>,
}

impl View for Fragment {
    type V = Seq<PartView>;

    closed spec fn view(&self) -> Seq<PartView> {
        part_views(self.parts@)
    }
}

impl Clone for Fragment {
    fn clone(&self) -> (out: Self)
        ensures
            out@ == self@,
    {
        let mut out = Fragment::new();
        out.extend(self);
        assert(out@ =~= self@);
        out
    }
}

impl Fragment {
    /// No text at all.
    pub fn new() -> (out: Fragment)
        ensures
            out@ == Seq::<PartView>::empty(),
    {
        let out = Fragment { parts: Vec::new() };
        assert(out@ =~= Seq::<PartView>::empty());
        out
    }

    /// One piece of text.
    pub fn text(s: &str) -> (out: Fragment)
        ensures
            out@ == text_part(s@),
    {
        let mut out = Fragment::new();
        out.push_text(s);
        assert(out@ =~= text_part(s@));
        out
    }

    /// One slot.
    pub fn slot(b: Binding) -> (out: Fragment)
        ensures
            out@ == slot_part(b@),
    {
        let mut out = Fragment::new();
        out.push_binding(b);
        assert(out@ =~= slot_part(b@));
        out
    }

    /// Appends a piece of text.
    pub fn push_text(&mut self, s: &str)
        ensures
            final(self)@ == old(self)@ + text_part(s@),
    {
        let part = Part::Text(s.to_owned());
        self.parts.push(part);
        assert(self@ =~= old(self)@ + text_part(s@));
    }

    /// Appends a slot.
    pub fn push_binding(&mut self, b: Binding)
        ensures
            final(self)@ == old(self)@ + slot_part(b@),
    {
        self.parts.push(Part::Slot(b));
        assert(self@ =~= old(self)@ + slot_part(b@));
    }

    /// Appends the pieces of `other`.
    pub fn push_fragment(&mut self, other: Fragment)
        ensures
            final(self)@ == old(self)@ + other@,
    {
        let mut other = other;
        let ghost added = other.parts@;
        self.parts.append(&mut other.parts);
        assert(self@ =~= old(self)@ + part_views(added));
    }

    /// Appends a copy of the pieces of `other`.
    pub fn extend(&mut self, other: &Fragment)
        ensures
            final(self)@ == old(self)@ + other@,
    {
        let mut i: usize = 0;
        while i < other.parts.len()
            invariant
                i <= other.parts.len(),
                self@ == old(self)@ + other@.take(i as int),
            decreases other.parts.len() - i,
        {
            let ghost before = self.parts@;
            let copy = other.parts[i].clone();
            self.parts.push(copy);
            assert(part_views(self.parts@) =~= part_views(before).push(copy@));
            assert(other@.take(i as int + 1) =~= other@.take(i as int).push(other.parts[i as int]@));
            i = i + 1;
            assert(self@ =~= old(self)@ + other@.take(i as int));
        }
        assert(other@.take(i as int) =~= other@);
    }

    /// The parameterized text: every bound value is written as its
    /// placeholder.
    pub fn build(&self) -> (out: String)
        ensures
            out@ == param_text(self@),
    {
        let mut out = String::new();
        let mut i: usize = 0;
        while i < self.parts.len()
            invariant
                i <= self.parts.len(),
                out@ == param_text(self@.take(i as int)),
            decreases self.parts.len() - i,
        {
            proof {
                assert(self@.take(i as int + 1).drop_last() =~= self@.take(i as int));
            }
            match &self.parts[i] {
                Part::Text(s) => {
                    out.append(s.as_str());
                },
                Part::Slot(b) => {
                    b.push_placeholder(&mut out);
                },
            }
            i = i + 1;
        }
        assert(self@.take(i as int) =~= self@);
        out
    }

    /// The raw text: every bound value is written out as a literal. For
    /// reading and testing, never for execution.
    pub fn to_raw(&self) -> (out: String)
        ensures
            out@ == raw_text(self@),
    {
        let mut out = String::new();
        let mut i: usize = 0;
        while i < self.parts.len()
            invariant
                i <= self.parts.len(),
                out@ == raw_text(self@.take(i as int)),
            decreases self.parts.len() - i,
        {
            proof {
                assert(self@.take(i as int + 1).drop_last() =~= self@.take(i as int));
            }
            match &self.parts[i] {
                Part::Text(s) => {
                    out.append(s.as_str());
                },
                Part::Slot(b) => {
                    b.get_value().push_raw(&mut out);
                },
            }
            i = i + 1;
        }
        assert(self@.take(i as int) =~= self@);
        out
    }

    /// The bound values, in the order in which their placeholders stand in
    /// the parameterized text.
    pub fn get_bindings(&self) -> (out: Vec<Binding>)
        ensures
            binding_views(out@) == slots(self@),
    {
        let mut out: Vec<Binding> = Vec::new();
        let mut i: usize = 0;
        while i < self.parts.len()
            invariant
                i <= self.parts.len(),
                binding_views(out@) == slots(self@.take(i as int)),
            decreases self.parts.len() - i,
        {
            proof {
                assert(self@.take(i as int + 1).drop_last() =~= self@.take(i as int));
            }
            match &self.parts[i] {
                Part::Text(_) => {},
                Part::Slot(b) => {
                    let ghost before = out@;
                    let copy = b.clone();
                    out.push(copy);
                    assert(binding_views(out@) =~= binding_views(before).push(copy@));
                },
            }
            i = i + 1;
        }
        assert(self@.take(i as int) =~= self@);
        out
    }

    /// The parameterized text with the placeholders numbered anew from 1,
    /// in their order: what the text is when the query alone uses its
    /// allocator.
    pub fn fine_tune_params(&self) -> (out: String)
        ensures
            out@ == numbered_text(self@, 1),
    {
        let mut out = String::new();
        let mut count: u64 = 0;
        let mut i: usize = 0;
        while i < self.parts.len()
            invariant
                i <= self.parts.len(),
                out@ == numbered_text(self@.take(i as int), 1),
                count == slots(self@.take(i as int)).len(),
                count <= i,
            decreases self.parts.len() - i,
        {
            proof {
                assert(self@.take(i as int + 1).drop_last() =~= self@.take(i as int));
            }
            match &self.parts[i] {
                Part::Text(s) => {
                    out.append(s.as_str());
                },
                Part::Slot(_) => {
                    push_numbered_placeholder(&mut out, count + 1);
                    count = count + 1;
                },
            }
            i = i + 1;
        }
        assert(self@.take(i as int) =~= self@);
        out
    }
}

/// Whether `s` holds no dollar sign.
pub fn is_dollar_free(s: &str) -> (out: bool)
    ensures
        out == dollar_free(s@),
{
    lacks_char(s, '$')
}

impl Fragment {
    /// Whether no piece of text holds a dollar sign. Where this is so,
    /// every dollar sign of the parameterized text begins the placeholder
    /// of a binding.
    pub fn is_placeholder_safe(&self) -> (out: bool)
        ensures
            out == texts_dollar_free(self@),
            out ==> holds_placeholders(param_text(self@), placeholder_names(slots(self@))),
    {
        let mut i: usize = 0;
        while i < self.parts.len()
            invariant
                i <= self.parts.len(),
                forall|k: int|
                    0 <= k < i ==> (#[trigger] self@[k] matches PartView::Text(s) ==> dollar_free(
                        s,
                    )),
            decreases self.parts.len() - i,
        {
            match &self.parts[i] {
                Part::Text(s) => {
                    if !is_dollar_free(s.as_str()) {
                        assert(self@[i as int] == PartView::Text(s@));
                        return false;
                    }
                },
                Part::Slot(_) => {},
            }
            i = i + 1;
        }
        proof {
            lemma_placeholders_match_bindings(self@);
        }
        true
    }
}

} // verus!
