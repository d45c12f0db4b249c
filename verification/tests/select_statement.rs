use surreal_query_builder::binding::{Binding, BindingAllocator};
use surreal_query_builder::clause::All;
use surreal_query_builder::error::QueryError;
use surreal_query_builder::field::{Field, Table};
use surreal_query_builder::filter::cond;
use surreal_query_builder::order::{order, Groupables, Order, Orderables, Splittables};
use surreal_query_builder::select::{select, QueryBuilder, Targettables};
use surreal_query_builder::value::{RecordKey, SurrealId, Value};

fn names(bindings: &[Binding]) -> Vec<String> {
    bindings.iter().map(|b| b.get_param()).collect()
}

#[test]
fn end_to_end_select_renders_both_ways() {
    let mut alloc = BindingAllocator::new();
    let query = select(All)
        .from(&mut alloc, Table::new("students").into())
        .where_(Field::new("age").greater_than(&mut alloc, Value::from(18)))
        .order_by(order(&Field::new("name")).asc().into())
        .limit(10);

    assert_eq!(
        query.to_raw(),
        "SELECT * FROM students WHERE age > 18 ORDER BY name ASC LIMIT 10;"
    );
    assert_eq!(
        query.build(),
        "SELECT * FROM $_param_00000001 WHERE age > $_param_00000002 ORDER BY name ASC LIMIT 10;"
    );
    let bindings = query.get_bindings();
    assert_eq!(names(&bindings), vec!["_param_00000001", "_param_00000002"]);
    assert_eq!(bindings[0].get_value().to_raw(), "students");
    assert_eq!(bindings[1].get_value().to_raw(), "18");
    assert!(query.get_errors().is_empty());
}

#[test]
fn bindings_follow_the_text_whatever_the_order_of_the_calls() {
    let mut alloc = BindingAllocator::new();
    // The condition is built, and its value bound, before the target.
    let condition = Field::new("age").equal(&mut alloc, Value::Number(7));
    let query = QueryBuilder::new()
        .select_all()
        .where_(condition)
        .from(&mut alloc, Targettables::Table(Table::new("pupil")));
    assert_eq!(
        query.build(),
        "SELECT * FROM $_param_00000002 WHERE age = $_param_00000001;"
    );
    assert_eq!(
        names(&query.get_bindings()),
        vec!["_param_00000002", "_param_00000001"]
    );
    assert_eq!(
        query.fine_tune_params(),
        "SELECT * FROM $_param_00000001 WHERE age = $_param_00000002;"
    );
}

#[test]
fn table_target_is_bound_once_and_subquery_target_is_not_bound_again() {
    let mut alloc = BindingAllocator::new();
    let inner = select(All).from(&mut alloc, Targettables::Table(Table::new("students")));
    let inner_bindings = names(&inner.get_bindings());
    assert_eq!(inner_bindings, vec!["_param_00000001"]);

    let outer = select(All).from(&mut alloc, Targettables::SubQuery(inner));
    assert_eq!(outer.build(), "SELECT * FROM (SELECT * FROM $_param_00000001;);");
    assert_eq!(outer.to_raw(), "SELECT * FROM (SELECT * FROM students;);");
    assert_eq!(names(&outer.get_bindings()), inner_bindings);

    // The sub-query took no number: the next binding gets the second one.
    let next = Field::new("a").equal(&mut alloc, Value::Number(1));
    assert_eq!(names(&next.get_bindings()), vec!["_param_00000002"]);
}

#[test]
fn several_tables_and_records_are_bound_in_their_order() {
    let mut alloc = BindingAllocator::new();
    let query = select(All)
        .from(
            &mut alloc,
            Targettables::Tables(vec![Table::new("a"), Table::new("b")]),
        )
        .from(
            &mut alloc,
            Targettables::SurrealId(SurrealId::new("student", RecordKey::Number(5))),
        )
        .from(
            &mut alloc,
            Targettables::SurrealIds(vec![
                SurrealId::new("student", RecordKey::Text("oyelowo".to_string())),
                SurrealId::new("student", RecordKey::Number(-3)),
            ]),
        );
    assert_eq!(
        query.build(),
        "SELECT * FROM $_param_00000001, $_param_00000002, $_param_00000003, $_param_00000004, $_param_00000005;"
    );
    assert_eq!(
        query.to_raw(),
        "SELECT * FROM a, b, student:5, student:oyelowo, student:-3;"
    );
    assert_eq!(query.get_bindings().len(), 5);
}

#[test]
fn every_section_renders_in_its_place() {
    let mut alloc = BindingAllocator::new();
    let age = Field::new("age");
    let name = Field::new("name");
    let city = Field::new("city");
    let query = QueryBuilder::new()
        .select(&name)
        .select_many(&[age.clone(), city.clone()])
        .from(&mut alloc, Targettables::Table(Table::new("person")))
        .where_(
            cond(age.greater_than_or_equal(&mut alloc, Value::Number(18)))
                .and(city.not_equal(&mut alloc, Value::Text("Oslo".to_string()))),
        )
        .split(Splittables::Split(city.clone()))
        .split(Splittables::Splits(vec![name.clone(), age.clone()]))
        .group_by(Groupables::Field(city.clone()))
        .group_by(Groupables::Fields(vec![age.clone()]))
        .order_by(Orderables::OrdersList(vec![
            Order::new(&name).collate().desc(),
            Order::new(&age).numeric(),
            Order::new(&city).rand().asc(),
        ]))
        .order_by(Orderables::Order(order(&name)))
        .limit(25)
        .start(50)
        .fetch(&city)
        .fetch_many(&[name.clone(), age.clone()])
        .timeout("5s")
        .parallel();
    assert_eq!(
        query.to_raw(),
        "SELECT name, age, city FROM person WHERE (age >= 18) AND (city != 'Oslo') \
         SPLIT city, name, age GROUP BY city, age \
         ORDER BY name COLLATE DESC, age NUMERIC ASC, city RAND() ASC, name ASC \
         LIMIT 25 START AT 50 FETCH city, name, age TIMEOUT 5s PARALLEL;"
    );
    assert_eq!(
        query.build(),
        "SELECT name, age, city FROM $_param_00000001 WHERE (age >= $_param_00000002) AND (city != $_param_00000003) \
         SPLIT city, name, age GROUP BY city, age \
         ORDER BY name COLLATE DESC, age NUMERIC ASC, city RAND() ASC, name ASC \
         LIMIT 25 START AT 50 FETCH city, name, age TIMEOUT 5s PARALLEL;"
    );
}

#[test]
fn empty_statement_renders_best_effort_text() {
    let query = QueryBuilder::new();
    assert_eq!(query.build(), "SELECT  FROM ;");
    assert_eq!(query.to_raw(), "SELECT  FROM ;");
    assert!(query.get_bindings().is_empty());
    assert!(query.finish().is_ok());
}

#[test]
fn second_condition_replaces_the_first_with_its_bindings() {
    let mut alloc = BindingAllocator::new();
    let age = Field::new("age");
    let query = select(All)
        .where_(age.less_than(&mut alloc, Value::Number(1)))
        .where_(age.exactly_equal(&mut alloc, Value::Number(2)));
    assert_eq!(query.build(), "SELECT * FROM  WHERE age == $_param_00000002;");
    assert_eq!(names(&query.get_bindings()), vec!["_param_00000002"]);
}

#[test]
fn limits_render_as_decimal_numbers() {
    let query = select(All).limit(0).start(u64::MAX);
    assert_eq!(
        query.build(),
        "SELECT * FROM  LIMIT 0 START AT 18446744073709551615;"
    );
}

#[test]
fn finish_hands_out_text_and_bindings_or_the_problems() {
    let mut alloc = BindingAllocator::new();
    let good = select(All).from(&mut alloc, Targettables::Table(Table::new("t")));
    let statement = good.finish().unwrap();
    assert_eq!(statement.text, "SELECT * FROM $_param_00000001;");
    assert_eq!(names(&statement.bindings), vec!["_param_00000001"]);

    // A value that the database cannot take is recorded; the statement
    // still renders, and is refused where it would be handed out.
    let bad = select(All)
        .from(&mut alloc, Targettables::Tables(vec![Table::new("ok"), Table::new("not\0ok")]))
        .where_(
            cond(Field::new("name").equal(&mut alloc, Value::Text("a\0b".to_string())))
                .and(Field::new("age").equal(&mut alloc, Value::Number(3))),
        );
    assert_eq!(
        bad.build(),
        "SELECT * FROM $_param_00000002, $_param_00000003 WHERE (name = $_param_00000004) AND (age = $_param_00000005);"
    );
    let invalid = bad.finish().unwrap_err();
    let messages: Vec<String> = invalid.errors.iter().map(|e| e.message()).collect();
    assert_eq!(
        messages,
        vec![
            "invalid value: the value of $_param_00000003 holds a NUL character",
            "invalid value: the value of $_param_00000004 holds a NUL character",
        ]
    );
    assert_eq!(bad.get_errors().len(), 2);
}

#[test]
fn order_defaults_to_ascending_and_keeps_one_option() {
    let field = Field::new("n");
    assert_eq!(order(&field).build(), "n ASC");
    assert_eq!(Order::new(&field).desc().build(), "n DESC");
    assert_eq!(Order::new(&field).rand().build(), "n RAND() ASC");
    assert_eq!(Order::new(&field).rand().collate().build(), "n COLLATE ASC");
    assert_eq!(Order::new(&field).numeric().desc().asc().build(), "n NUMERIC ASC");
    assert!(order(&field).get_bindings().is_empty());
}

#[test]
fn errors_are_debug_printable() {
    let error = QueryError::IdTableMismatch {
        expected: "a".to_string(),
        actual: "b".to_string(),
    };
    assert_eq!(error.message(), "invalid id: it belongs to table b, not to table a");
    assert!(format!("{:?}", error).contains("IdTableMismatch"));
}

#[test]
fn single_items_and_lists_convert_into_the_variant_types() {
    let field = Field::new("f");
    assert!(matches!(Groupables::from(field.clone()), Groupables::Field(_)));
    assert!(matches!(Groupables::from(vec![field.clone()]), Groupables::Fields(_)));
    assert!(matches!(Splittables::from(field.clone()), Splittables::Split(_)));
    assert!(matches!(Splittables::from(vec![field.clone()]), Splittables::Splits(_)));
    assert!(matches!(Orderables::from(order(&field)), Orderables::Order(_)));
    assert!(matches!(Orderables::from(vec![order(&field)]), Orderables::OrdersList(_)));
    assert_eq!(Orderables::from(vec![order(&field), order(&field)]).normalize().len(), 2);
    assert_eq!(Groupables::from(field.clone()).normalize().len(), 1);
    assert_eq!(Splittables::from(vec![field.clone(), field.clone()]).normalize().len(), 2);
    assert!(Orderables::from(order(&field)).get_bindings().is_empty());
    assert!(Groupables::from(field.clone()).get_bindings().is_empty());
    assert!(Splittables::from(field.clone()).get_bindings().is_empty());

    let id = SurrealId::new("t", RecordKey::Number(1));
    assert!(matches!(Targettables::from(Table::new("t")), Targettables::Table(_)));
    assert!(matches!(Targettables::from(vec![Table::new("t")]), Targettables::Tables(_)));
    assert!(matches!(Targettables::from(id.clone()), Targettables::SurrealId(_)));
    assert!(matches!(Targettables::from(vec![id.clone()]), Targettables::SurrealIds(_)));
    assert!(matches!(Targettables::from(QueryBuilder::new()), Targettables::SubQuery(_)));
    assert_eq!(Targettables::from(vec![id.clone(), id]).values().len(), 2);
    assert!(Targettables::from(QueryBuilder::new()).values().is_empty());

    let mut alloc = BindingAllocator::new();
    let bound = Targettables::from(Table::new("t")).get_bindings(&mut alloc);
    assert_eq!(names(&bound), vec!["_param_00000001"]);
    let inner = select(All).from(&mut alloc, Table::new("u").into());
    let handed_on = Targettables::from(inner).get_bindings(&mut alloc);
    assert_eq!(names(&handed_on), vec!["_param_00000002"]);
}

#[test]
fn statement_without_a_dollar_sign_of_its_own_is_placeholder_safe() {
    let mut alloc = BindingAllocator::new();
    let query = select(All)
        .from(&mut alloc, Table::new("students").into())
        .where_(Field::new("age").greater_than(&mut alloc, Value::from(18)));
    assert!(query.is_placeholder_safe());
    assert_eq!(query.build().matches('$').count(), query.get_bindings().len());

    let unsafe_name = select(All).select(&Field::new("$_param_00000009"));
    assert!(!unsafe_name.is_placeholder_safe());
}
