use surreal_query_builder::binding::BindingAllocator;
use surreal_query_builder::clause::{
    any_other_edges, index, where_, All, Clause, ClauseType, EdgeClause, Empty, Last,
    NodeAliasClause, NodeClause, ObjectClause,
};
use surreal_query_builder::error::QueryError;
use surreal_query_builder::field::{Field, NumberLike, Table};
use surreal_query_builder::select::{select, Targettables};
use surreal_query_builder::value::{RecordKey, SurrealId, Value};

#[test]
fn arrow_and_table_stand_before_the_clause() {
    let mut alloc = BindingAllocator::new();
    let amount = Field::new("amount");
    let clause = EdgeClause::from(Clause::from(where_(
        amount.less_than_or_equal(&mut alloc, Value::Number(120)),
    )))
    .with_arrow("->")
    .with_table("purchased");
    assert_eq!(clause.build(), "->purchased[WHERE amount <= $_param_00000001]");
    assert_eq!(clause.to_raw(), "->purchased[WHERE amount <= 120]");
    assert_eq!(clause.get_bindings().len(), 1);
    assert!(clause.get_errors().is_empty());

    let likes = EdgeClause::from(Clause::from(All))
        .with_arrow("<-")
        .with_table("likes");
    assert_eq!(likes.build(), "<-likes[*]");
}

#[test]
fn id_of_another_table_is_recorded_and_the_clause_still_renders() {
    let mut alloc = BindingAllocator::new();
    let id = SurrealId::try_from("student:5").unwrap();
    let clause = NodeClause::from_id(&mut alloc, id)
        .with_arrow("->")
        .with_table("teacher");
    let errors = clause.get_errors();
    assert_eq!(errors.len(), 1);
    match &errors[0] {
        QueryError::IdTableMismatch { expected, actual } => {
            assert_eq!(expected, "teacher");
            assert_eq!(actual, "student");
        }
        other => panic!("unexpected problem: {:?}", other),
    }
    assert_eq!(clause.build(), "->$_param_00000001");
    assert_eq!(clause.to_raw(), "->student:5");
}

#[test]
fn id_of_the_same_table_records_nothing() {
    let mut alloc = BindingAllocator::new();
    let id = SurrealId::new("student", RecordKey::Number(5));
    let clause = NodeClause::from_id(&mut alloc, id).with_table("student");
    assert!(clause.get_errors().is_empty());
    assert_eq!(clause.build(), "$_param_00000001");
}

#[test]
fn problems_add_up_and_are_never_dropped() {
    let mut alloc = BindingAllocator::new();
    let id = SurrealId::new("student", RecordKey::Number(5));
    let clause = Clause::new(&mut alloc, ClauseType::Id(id))
        .with_table("teacher")
        .with_table("school");
    assert_eq!(clause.get_errors().len(), 2);
    let clause = clause.update_errors("student");
    assert_eq!(clause.get_errors().len(), 2);
}

#[test]
fn query_clause_leaves_out_the_terminator_and_the_name() {
    let mut alloc = BindingAllocator::new();
    let statement = select(All).from(&mut alloc, Targettables::Table(Table::new("students")));
    let clause = Clause::new(&mut alloc, ClauseType::Query(statement))
        .with_arrow("->")
        .with_table("ignored");
    assert_eq!(clause.to_raw(), "->(SELECT * FROM students)");
}

#[test]
fn any_edge_clause_puts_the_name_first_among_the_tables() {
    let mut alloc = BindingAllocator::new();
    let edges = any_other_edges(vec![Table::new("writes"), Table::new("reads")]);
    assert_eq!(edges.build(), "writes, reads ");
    let clause = EdgeClause::from(edges).with_arrow("->");
    assert_eq!(clause.build(), "->(writes, reads )");
    let clause = clause.with_table("purchased");
    assert_eq!(clause.build(), "->(purchased, writes, reads )");

    let filtered = any_other_edges(vec![Table::new("writes")])
        .where_(Field::new("year").greater_than(&mut alloc, Value::Number(2000)));
    let clause = Clause::new(&mut alloc, ClauseType::AnyEdgeFilter(filtered)).with_table("reads");
    assert_eq!(clause.to_raw(), "(reads, writes  WHERE year > 2000)");
    assert_eq!(clause.get_bindings().len(), 1);
}

#[test]
fn any_edge_tables_are_escaped_where_they_must_be() {
    let edges = any_other_edges(vec![Table::new("my table"), Table::new("123")]);
    assert_eq!(edges.build(), "`my table`, `123` ");
}

#[test]
fn field_name_stands_before_the_clause() {
    let mut alloc = BindingAllocator::new();
    let clause = ObjectClause::from(Clause::new(
        &mut alloc,
        ClauseType::Index(index(NumberLike::Number(3))),
    ))
    .with_field("tags".to_string());
    assert_eq!(clause.build(), "tags[$_param_00000001]");
    assert_eq!(clause.to_raw(), "tags[3]");
    let arrowed = ObjectClause::from(Clause::from(Last))
        .with_arrow(".".to_string().as_str())
        .with_table("items");
    assert_eq!(arrowed.build(), ".items[$]");
    let node = NodeClause::from(Clause::from(All)).with_field("friends".to_string());
    assert_eq!(node.build(), "friends[*]");
}

#[test]
fn alias_clause_hands_out_the_node_clause() {
    let alias = NodeAliasClause::from(Clause::from(Empty));
    let node = alias.into_inner().with_arrow("->").with_table("person");
    assert_eq!(node.build(), "->person");
    assert_eq!(node.fine_tune_params(), "->person");
}

#[test]
fn empty_has_no_text_bindings_or_problems() {
    assert_eq!(Empty.build(), "");
    assert_eq!(Empty.get_condition_query_string(), "");
    assert!(Empty.get_bindings().is_empty());
    assert!(Empty.get_errors().is_empty());
}

#[test]
fn clause_inherits_the_problems_of_what_it_holds() {
    let mut alloc = BindingAllocator::new();
    // A statement without problems hands none on.
    let statement = select(All).from(&mut alloc, Targettables::Table(Table::new("t")));
    let clause = Clause::from(statement);
    assert!(clause.get_errors().is_empty());

    // A statement, a condition and an index with a problem hand it on.
    let statement = select(All).from(&mut alloc, Targettables::Table(Table::new("t\0")));
    let clause = Clause::from(statement).with_arrow("->");
    assert_eq!(clause.get_errors().len(), 1);
    assert_eq!(clause.build(), "->(SELECT * FROM $_param_00000002)");

    let condition = Field::new("a").equal(&mut alloc, Value::Text("x\0y".to_string()));
    let clause = Clause::from(where_(condition));
    assert_eq!(clause.get_errors().len(), 1);
    let edges = any_other_edges(vec![Table::new("writes")])
        .where_(Field::new("a").equal(&mut alloc, Value::Param("p\0".to_string())));
    assert_eq!(edges.get_errors().len(), 1);
    assert_eq!(EdgeClause::from(edges).get_errors().len(), 1);

    let field = Field::new("pos\0ition");
    let clause = Clause::new(&mut alloc, ClauseType::Index(index(NumberLike::Field(field))));
    let errors = clause.get_errors();
    assert!(matches!(
        errors[0],
        QueryError::UnbindableValue { placeholder: 5 }
    ));
    assert_eq!(clause.build(), "[$_param_00000005]");
}
