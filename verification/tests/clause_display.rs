use surreal_query_builder::binding::BindingAllocator;
use surreal_query_builder::clause::{
    any_other_edges, index, All, Clause, ClauseType, Empty, Last, NodeClause,
};
use surreal_query_builder::field::{Field, NumberLike, Param, Table};
use surreal_query_builder::filter::cond;
use surreal_query_builder::select::select;
use surreal_query_builder::value::{SurrealId, Value};

#[test]
fn test_display_clause_with_empty() {
    // test empty clause
    let empty_clause = Clause::from(Empty);
    assert_eq!(format!("{}", empty_clause.build()), "");
    assert_eq!(format!("{}", empty_clause.to_raw()), "");
}

#[test]
fn test_display_clause_with_where_filter() {
    // test where clause
    let mut alloc = BindingAllocator::new();
    let filter = cond(Field::new("age").equal(&mut alloc, Value::from(18)));
    let where_clause = Clause::from(filter);
    assert_eq!(
        format!("{}", where_clause.fine_tune_params()),
        "[WHERE age = $_param_00000001]"
    );
    assert_eq!(format!("{}", where_clause.to_raw()), "[WHERE age = 18]");
}

#[test]
fn test_display_clause_with_id_only_wors_with_node() {
    // test id clause
    let mut alloc = BindingAllocator::new();
    let id_clause = NodeClause::from_id(&mut alloc, SurrealId::try_from("student:5").unwrap());
    assert_eq!(id_clause.fine_tune_params(), "$_param_00000001");
    assert_eq!(format!("{}", id_clause.to_raw()), "student:5");
}

#[test]
fn test_display_clause_with_query() {
    // test query clause
    let mut alloc = BindingAllocator::new();
    let table = Table::new("students");
    let select_statement = select(All).from(&mut alloc, table.into());
    let query_clause = Clause::from(select_statement);
    // The table name is data: in the parameterized text it stands behind
    // a placeholder.
    assert_eq!(
        format!("{}", query_clause.build()),
        "(SELECT * FROM $_param_00000001)"
    );
    assert_eq!(
        query_clause.to_raw().to_string(),
        "(SELECT * FROM students)"
    );
}

#[test]
fn test_display_clause_with_all() {
    // test all clause
    let all_clause = Clause::from(All);
    assert_eq!(format!("{}", all_clause.build()), "[*]");
    assert_eq!(format!("{}", all_clause.to_raw()), "[*]");
}

#[test]
fn test_display_clause_with_last() {
    // test last clause
    let last_clause = Clause::from(Last);
    assert_eq!(format!("{}", last_clause.build()), "[$]");
    assert_eq!(format!("{}", last_clause.to_raw()), "[$]");
}

#[test]
fn test_display_clause_with_index() {
    // test index clause
    let mut alloc = BindingAllocator::new();
    let index_clause = Clause::new(&mut alloc, ClauseType::Index(index(NumberLike::from(42))));
    assert_eq!(
        format!("{}", index_clause.fine_tune_params()),
        "[$_param_00000001]"
    );
    assert_eq!(format!("{}", index_clause.to_raw()), "[42]");
}

#[test]
fn test_display_clause_with_index_field() {
    // test index clause
    let mut alloc = BindingAllocator::new();
    let position = Field::new("position");
    let index_clause = Clause::new(&mut alloc, ClauseType::Index(index(position.into())));
    assert_eq!(index_clause.fine_tune_params(), "[$_param_00000001]");
    assert_eq!(format!("{}", index_clause.to_raw()), "[position]");
}

#[test]
fn test_display_clause_with_index_param() {
    // test index clause
    let mut alloc = BindingAllocator::new();
    let position = Param::new("position");
    let index_clause = Clause::new(&mut alloc, ClauseType::Index(index(position.into())));
    assert_eq!(index_clause.fine_tune_params(), "[$_param_00000001]");
    assert_eq!(format!("{}", index_clause.to_raw()), "[$position]");
}

#[test]
fn test_display_clause_with_any_edge_condition_simple() {
    let mut alloc = BindingAllocator::new();
    let writes = Table::new("writes");
    let reads = Table::new("reads");
    let purchased = Table::new("purchased");
    let amount = Field::new("amount");

    let age_edge_condition = any_other_edges(vec![writes, reads, purchased])
        .where_(amount.less_than_or_equal(&mut alloc, Value::from(120)));

    assert_eq!(
        age_edge_condition.fine_tune_params(),
        "writes, reads, purchased  WHERE amount <= $_param_00000001"
    );
    assert_eq!(
        format!("{}", age_edge_condition.to_raw()),
        "writes, reads, purchased  WHERE amount <= 120"
    );
}

#[test]
fn test_display_clause_with_any_edge_condition_complex() {
    let mut alloc = BindingAllocator::new();
    let writes = Table::new("writes");
    let reads = Table::new("reads");
    let purchased = Table::new("purchased");
    let city = Field::new("city");

    let age_edge_condition = any_other_edges(vec![writes, reads, purchased]).where_(
        cond(city.is(&mut alloc, Value::from("Prince Edward Island")))
            .and(city.is(&mut alloc, Value::from("NewFoundland")))
            .or(city.like(&mut alloc, Value::from("Toronto"))),
    );

    // Every joining step puts both of its sides in parentheses.
    assert_eq!(
        age_edge_condition.fine_tune_params(),
        "writes, reads, purchased  WHERE ((city IS $_param_00000001) AND (city IS $_param_00000002)) OR (city ~ $_param_00000003)"
    );
    assert_eq!(
        format!("{}", age_edge_condition.to_raw()),
        "writes, reads, purchased  WHERE ((city IS 'Prince Edward Island') AND (city IS 'NewFoundland')) OR (city ~ 'Toronto')"
    );
}
