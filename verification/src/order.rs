//! What a statement is sorted, grouped and split by.

use crate::binding::Binding;
use crate::field::{field_views, Field};
use vstd::prelude::*;

verus! {

/// The direction of a sort.
#[derive(Clone, Copy, Debug)]
pub enum OrderDirection {
    Asc,
    Desc,
}

/// How the values of a sort are compared.
#[derive(Clone, Copy, Debug)]
pub enum OrderOption {
    Rand,
    Collate,
    Numeric,
}

/// One sort key: a field, a direction and, at most, one option.
#[derive(Debug)]
pub struct Order {
    field: Field,
    direction: Option<OrderDirection>,
    option: Option<OrderOption>,
}

/// The mathematical form of an [`Order`].
pub struct OrderView {
    pub field: Seq<char>,
    pub direction: Option<OrderDirection>,
    pub option: Option<OrderOption>,
}

impl View for Order {
    type V = OrderView;

    closed spec fn view(&self) -> OrderView {
        OrderView { field: self.field@, direction: self.direction, option: self.option }
    }
}

impl Clone for Order {
    fn clone(&self) -> (out: Self)
        ensures
            out@ == self@,
    {
        Order { field: self.field.clone(), direction: self.direction, option: self.option }
    }
}

/// The option of a sort key as it stands in query text, with the space
/// before it; nothing where there is none.
pub open spec fn option_text(option: Option<OrderOption>) -> Seq<char> {
    match option {
        Some(OrderOption::Rand) => " RAND()"@,
        Some(OrderOption::Collate) => " COLLATE"@,
        Some(OrderOption::Numeric) => " NUMERIC"@,
        None => Seq::empty(),
    }
}

/// The direction of a sort key as it stands in query text, with the space
/// before it. A key without a direction sorts upwards.
pub open spec fn direction_text(direction: Option<OrderDirection>) -> Seq<char> {
    match direction {
        Some(OrderDirection::Desc) => " DESC"@,
        _ => " ASC"@,
    }
}

/// A sort key as it stands in query text: the field, the option where
/// there is one, and the direction.
pub open spec fn order_text(o: OrderView) -> Seq<char> {
    o.field + option_text(o.option) + direction_text(o.direction)
}

/// The texts of a list of sort keys.
pub open spec fn order_texts(orders: Seq<Order>) -> Seq<Seq<char>> {
    orders.map_values(|o: Order| order_text(o@))
}

/// The views of a list of sort keys.
pub open spec fn order_views(orders: Seq<Order>) -> Seq<OrderView> {
    orders.map_values(|o: Order| o@)
}

/// A sort by `field`, upwards and without an option.
pub fn order(field: &Field) -> (out: Order)
    ensures
        out@ == (OrderView { field: field@, direction: None, option: None }),
{
    Order::new(field)
}

impl Order {
    /// A sort by `field`, upwards and without an option.
    pub fn new(field: &Field) -> (out: Order)
        ensures
            out@ == (OrderView { field: field@, direction: None, option: None }),
    {
        Order { field: field.clone(), direction: None, option: None }
    }

    /// The same sort, upwards.
    pub fn asc(self) -> (out: Order)
        ensures
            out@ == (OrderView { direction: Some(OrderDirection::Asc), ..self@ }),
    {
        Order { field: self.field, direction: Some(OrderDirection::Asc), option: self.option }
    }

    /// The same sort, downwards.
    pub fn desc(self) -> (out: Order)
        ensures
            out@ == (OrderView { direction: Some(OrderDirection::Desc), ..self@ }),
    {
        Order { field: self.field, direction: Some(OrderDirection::Desc), option: self.option }
    }

    /// The same sort in random order. Replaces any other option.
    pub fn rand(self) -> (out: Order)
        ensures
            out@ == (OrderView { option: Some(OrderOption::Rand), ..self@ }),
    {
        Order { field: self.field, direction: self.direction, option: Some(OrderOption::Rand) }
    }

    /// The same sort by the rules of the language of the text. Replaces
    /// any other option.
    pub fn collate(self) -> (out: Order)
        ensures
            out@ == (OrderView { option: Some(OrderOption::Collate), ..self@ }),
    {
        Order { field: self.field, direction: self.direction, option: Some(OrderOption::Collate) }
    }

    /// The same sort with numbers in text compared as numbers. Replaces
    /// any other option.
    pub fn numeric(self) -> (out: Order)
        ensures
            out@ == (OrderView { option: Some(OrderOption::Numeric), ..self@ }),
    {
        Order { field: self.field, direction: self.direction, option: Some(OrderOption::Numeric) }
    }

    /// A sort key binds no value.
    pub fn get_bindings(&self) -> (out: Vec<Binding>)
        ensures
            out@.len() == 0,
    {
        Vec::new()
    }

    /// The sort key as it stands in query text.
    pub fn build(&self) -> (out: String)
        ensures
            out@ == order_text(self@),
    {
        let mut out = self.field.build();
        match self.option {
            Some(OrderOption::Rand) => {
                out.append(" RAND()");
            },
            Some(OrderOption::Collate) => {
                out.append(" COLLATE");
            },
            Some(OrderOption::Numeric) => {
                out.append(" NUMERIC");
            },
            None => {},
        }
        match self.direction {
            Some(OrderDirection::Desc) => {
                out.append(" DESC");
            },
            _ => {
                out.append(" ASC");
            },
        }
        assert(out@ =~= order_text(self@));
        out
    }
}

/// One sort key or several.
#[derive(Debug)]
pub enum Orderables {
    Order(Order),
    OrdersList(Vec<Order>),
}

/// The sort keys of an [`Orderables`], in their order.
pub open spec fn orderables_views(o: Orderables) -> Seq<OrderView> {
    match o {
        Orderables::Order(one) => seq![one@],
        Orderables::OrdersList(many) => order_views(many@),
    }
}

impl Orderables {
    /// The sort keys as one list.
    pub fn normalize(self) -> (out: Vec<Order>)
        ensures
            order_views(out@) == orderables_views(self),
    {
        match self {
            Orderables::Order(one) => {
                let mut out: Vec<Order> = Vec::new();
                out.push(one);
                assert(order_views(out@) =~= seq![one@]);
                out
            },
            Orderables::OrdersList(many) => many,
        }
    }

    /// Sort keys bind no value.
    pub fn get_bindings(&self) -> (out: Vec<Binding>)
        ensures
            out@.len() == 0,
    {
        Vec::new()
    }
}

/// One field to group by, or several.
#[derive(Debug)]
pub enum Groupables {
    Field(Field),
    Fields(Vec<Field>),
}

/// The fields of a [`Groupables`], in their order.
pub open spec fn groupables_views(g: Groupables) -> Seq<Seq<char>> {
    match g {
        Groupables::Field(one) => seq![one@],
        Groupables::Fields(many) => field_views(many@),
    }
}

impl Groupables {
    /// The fields as one list.
    pub fn normalize(self) -> (out: Vec<Field>)
        ensures
            field_views(out@) == groupables_views(self),
    {
        match self {
            Groupables::Field(one) => {
                let mut out: Vec<Field> = Vec::new();
                out.push(one);
                assert(field_views(out@) =~= seq![one@]);
                out
            },
            Groupables::Fields(many) => many,
        }
    }

    /// Fields to group by bind no value.
    pub fn get_bindings(&self) -> (out: Vec<Binding>)
        ensures
            out@.len() == 0,
    {
        Vec::new()
    }
}

/// One field to split at, or several.
#[derive(Debug)]
pub enum Splittables {
    Split(Field),
    Splits(Vec<Field>),
}

/// The fields of a [`Splittables`], in their order.
pub open spec fn splittables_views(s: Splittables) -> Seq<Seq<char>> {
    match s {
        Splittables::Split(one) => seq![one@],
        Splittables::Splits(many) => field_views(many@),
    }
}

impl Splittables {
    /// The fields as one list.
    pub fn normalize(self) -> (out: Vec<Field>)
        ensures
            field_views(out@) == splittables_views(self),
    {
        match self {
            Splittables::Split(one) => {
                let mut out: Vec<Field> = Vec::new();
                out.push(one);
                assert(field_views(out@) =~= seq![one@]);
                out
            },
            Splittables::Splits(many) => many,
        }
    }

    /// Fields to split at bind no value.
    pub fn get_bindings(&self) -> (out: Vec<Binding>)
        ensures
            out@.len() == 0,
    {
        Vec::new()
    }
}

impl From<Order> for Orderables {
    /// One sort key.
    fn from(value: Order) -> (out: Orderables)
        ensures
            out == Orderables::Order(value),
    {
        Orderables::Order(value)
    }
}

impl vstd::std_specs::convert::FromSpecImpl<Order> for Orderables {
    open spec fn obeys_from_spec() -> bool {
        true
    }

    open spec fn from_spec(value: Order) -> Orderables {
        Orderables::Order(value)
    }
}

impl From<Vec<Order>> for Orderables {
    /// Several sort keys.
    fn from(value: Vec<Order>) -> (out: Orderables)
        ensures
            out == Orderables::OrdersList(value),
    {
        Orderables::OrdersList(value)
    }
}

impl vstd::std_specs::convert::FromSpecImpl<Vec<Order>> for Orderables {
    open spec fn obeys_from_spec() -> bool {
        true
    }

    open spec fn from_spec(value: Vec<Order>) -> Orderables {
        Orderables::OrdersList(value)
    }
}

impl From<Field> for Groupables {
    /// One field to group by.
    fn from(value: Field) -> (out: Groupables)
        ensures
            out == Groupables::Field(value),
    {
        Groupables::Field(value)
    }
}

impl vstd::std_specs::convert::FromSpecImpl<Field> for Groupables {
    open spec fn obeys_from_spec() -> bool {
        true
    }

    open spec fn from_spec(value: Field) -> Groupables {
        Groupables::Field(value)
    }
}

impl From<Vec<Field>> for Groupables {
    /// Several fields to group by.
    fn from(value: Vec<Field>) -> (out: Groupables)
        ensures
            out == Groupables::Fields(value),
    {
        Groupables::Fields(value)
    }
}

impl vstd::std_specs::convert::FromSpecImpl<Vec<Field>> for Groupables {
    open spec fn obeys_from_spec() -> bool {
        true
    }

    open spec fn from_spec(value: Vec<Field>) -> Groupables {
        Groupables::Fields(value)
    }
}

impl From<Field> for Splittables {
    /// One field to split at.
    fn from(value: Field) -> (out: Splittables)
        ensures
            out == Splittables::Split(value),
    {
        Splittables::Split(value)
    }
}

impl vstd::std_specs::convert::FromSpecImpl<Field> for Splittables {
    open spec fn obeys_from_spec() -> bool {
        true
    }

    open spec fn from_spec(value: Field) -> Splittables {
        Splittables::Split(value)
    }
}

impl From<Vec<Field>> for Splittables {
    /// Several fields to split at.
    fn from(value: Vec<Field>) -> (out: Splittables)
        ensures
            out == Splittables::Splits(value),
    {
        Splittables::Splits(value)
    }
}

impl vstd::std_specs::convert::FromSpecImpl<Vec<Field>> for Splittables {
    open spec fn obeys_from_spec() -> bool {
        true
    }

    open spec fn from_spec(value: Vec<Field>) -> Splittables {
        Splittables::Splits(value)
    }
}

} // verus!
