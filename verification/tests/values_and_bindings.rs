use surreal_query_builder::binding::BindingAllocator;
use surreal_query_builder::field::{Field, NumberLike, Param, Table};
use surreal_query_builder::filter::{cond, Filter, Operator};
use surreal_query_builder::fragment::Fragment;
use surreal_query_builder::value::{Datetime, Duration, InvalidId, RecordKey, SurrealId, Value};

#[test]
fn placeholders_are_distinct_and_rise() {
    let mut alloc = BindingAllocator::new();
    let mut names = Vec::new();
    let mut ids = Vec::new();
    for _ in 0..12 {
        // Equal values get placeholders of their own.
        let binding = alloc.new_binding(Value::Number(1));
        ids.push(binding.get_id());
        names.push(binding.get_param());
    }
    for i in 1..ids.len() {
        assert!(ids[i - 1] < ids[i]);
        assert!(names[i - 1] < names[i]);
    }
    assert_eq!(names[0], "_param_00000001");
    assert_eq!(names[9], "_param_00000010");
    assert_eq!(names[11], "_param_00000012");
}

#[test]
fn bulk_bindings_are_numbered_in_order() {
    let mut alloc = BindingAllocator::new();
    let first = alloc.new_binding(Value::Number(0));
    assert_eq!(first.get_param_dollarised(), "$_param_00000001");
    let more = alloc.new_bindings(&vec![Value::Number(10), Value::Number(20)]);
    assert_eq!(more[0].get_param(), "_param_00000002");
    assert_eq!(more[1].get_param(), "_param_00000003");
    assert_eq!(more[1].get_value().to_raw(), "20");
    assert!(alloc.has_room(5));
}

#[test]
fn wide_numbers_keep_all_their_digits() {
    let mut out = String::new();
    surreal_query_builder::text::push_padded(&mut out, 123_456_789, 8);
    assert_eq!(out, "123456789");
    let mut out = String::new();
    surreal_query_builder::text::push_padded(&mut out, 0, 8);
    assert_eq!(out, "00000000");
    let mut out = String::new();
    surreal_query_builder::text::push_signed(&mut out, i64::MIN);
    assert_eq!(out, "-9223372036854775808");
    let mut out = String::from("n=");
    surreal_query_builder::text::push_decimal(&mut out, 907);
    assert_eq!(out, "n=907");
    assert_eq!(surreal_query_builder::text::decimal_len(u64::MAX), 20);
    let mut out = String::new();
    surreal_query_builder::text::push_joined(
        &mut out,
        &vec!["a".to_string(), "b".to_string(), "c".to_string()],
        " | ",
    );
    assert_eq!(out, "a | b | c");
}

#[test]
fn values_render_as_literals() {
    assert_eq!(Value::Number(-42).to_raw(), "-42");
    assert_eq!(Value::Text("Toronto".to_string()).to_raw(), "'Toronto'");
    assert_eq!(Value::Text("cat's".to_string()).to_raw(), "\"cat's\"");
    assert_eq!(Value::Text("a:b".to_string()).to_raw(), "s'a:b'");
    assert_eq!(Value::Field("position".to_string()).to_raw(), "position");
    assert_eq!(Value::Param("position".to_string()).to_raw(), "$position");
    assert_eq!(Value::Table("students".to_string()).to_raw(), "students");
    assert_eq!(Value::Table("my table".to_string()).to_raw(), "`my table`");
    assert_eq!(Value::Table("a`b".to_string()).to_raw(), "`a\\`b`");
    assert_eq!(Value::Table("2024".to_string()).to_raw(), "`2024`");
    assert_eq!(Value::Table("".to_string()).to_raw(), "``");
    assert_eq!(Field::new("age").to_value().to_raw(), "age");
    assert_eq!(Param::new("p").to_value().to_raw(), "$p");
    assert_eq!(Param::new("p").build(), "$p");
    assert_eq!(Table::new("t_1").to_value().to_raw(), "t_1");
    assert_eq!(Table::new("t-1").build(), "`t-1`");
}

#[test]
fn record_identifiers_read_and_render() {
    let id = SurrealId::try_from("student:5").unwrap();
    assert_eq!(id.table, "student");
    assert!(matches!(id.key, RecordKey::Number(5)));
    assert_eq!(id.to_raw(), "student:5");

    let id = SurrealId::try_from("student:oyelowo").unwrap();
    assert!(matches!(&id.key, RecordKey::Text(k) if k == "oyelowo"));
    assert_eq!(id.to_raw(), "student:oyelowo");

    assert_eq!(
        SurrealId::new("my table", RecordKey::Text("a b".to_string())).to_raw(),
        "⟨my table⟩:⟨a b⟩"
    );
    assert_eq!(
        SurrealId::new("t", RecordKey::Text("7".to_string())).to_raw(),
        "t:⟨7⟩"
    );
    assert_eq!(Value::Record(SurrealId::new("t", RecordKey::Number(-1))).to_raw(), "t:-1");

    assert!(matches!(SurrealId::try_from("no colon"), Err(InvalidId::Malformed)));
    assert!(matches!(SurrealId::try_from(""), Err(InvalidId::Malformed)));
    assert!(matches!(
        SurrealId::try_from("student:[1, 2]"),
        Err(InvalidId::UnsupportedKey)
    ));
    assert!(matches!(
        SurrealId::from_parsed(Some(("t".to_string(), None, None))),
        Err(InvalidId::UnsupportedKey)
    ));
    assert!(matches!(SurrealId::from_parsed(None), Err(InvalidId::Malformed)));
    let both = SurrealId::from_parsed(Some(("t".to_string(), Some(3), Some("x".to_string()))));
    assert!(matches!(both.unwrap().key, RecordKey::Number(3)));
}

#[test]
fn instants_and_spans_render_as_the_database_writes_them() {
    let instant = Datetime::from_timestamp(61, 0).unwrap();
    assert_eq!(instant.to_raw(), "'1970-01-01T00:01:01Z'");
    assert_eq!(
        Value::Datetime(Datetime::from_timestamp(0, 500_000_000).unwrap()).to_raw(),
        "'1970-01-01T00:00:00.500Z'"
    );
    assert!(Datetime::from_timestamp(i64::MAX, 0).is_none());
    assert!(Datetime::from_timestamp(0, 2_000_000_000).is_none());

    assert_eq!(Duration::from_secs(7 * 24 * 60 * 60).to_raw(), "1w");
    assert_eq!(Duration::from_secs(0).to_raw(), "0ns");
    assert_eq!(Duration::new(90, 5_000_000).unwrap().to_raw(), "1m30s5ms");
    assert_eq!(Value::Duration(Duration::from_secs(3600)).to_raw(), "1h");
    assert!(Duration::new(1, 1_000_000_000).is_none());
    assert!(Duration::new(1, 999_999_999).is_some());
}

#[test]
fn values_with_a_nul_character_cannot_be_bound() {
    assert!(Value::Text("plain".to_string()).is_bindable());
    assert!(!Value::Text("pl\0ain".to_string()).is_bindable());
    assert!(!Value::Field("\0".to_string()).is_bindable());
    assert!(!Value::Param("p\0".to_string()).is_bindable());
    assert!(!Value::Table("t\0".to_string()).is_bindable());
    assert!(Value::Number(0).is_bindable());
    assert!(Value::Record(SurrealId::new("t\0", RecordKey::Number(1))).is_bindable());
    assert!(surreal_query_builder::text::lacks_char("abc", 'd'));
    assert!(!surreal_query_builder::text::lacks_char("abcé", 'é'));

    let mut alloc = BindingAllocator::new();
    let binding = alloc.new_binding(Value::Text("\0".to_string()));
    let mut errors = Vec::new();
    binding.validate(&mut errors);
    binding.validate(&mut errors);
    assert_eq!(errors.len(), 2);
    assert_eq!(
        errors[0].message(),
        "invalid value: the value of $_param_00000001 holds a NUL character"
    );
}

#[test]
fn plain_values_convert_into_values() {
    assert!(matches!(Value::from(7), Value::Number(7)));
    assert_eq!(Value::from("a").to_raw(), "'a'");
    assert_eq!(Value::from("a".to_string()).to_raw(), "'a'");
    assert_eq!(Value::from(&Field::new("f")).to_raw(), "f");
    assert_eq!(Value::from(&Param::new("p")).to_raw(), "$p");
    assert_eq!(Value::from(&Table::new("t")).to_raw(), "t");
    assert_eq!(Value::from(SurrealId::new("t", RecordKey::Number(2))).to_raw(), "t:2");
    assert_eq!(Value::from(Datetime::from_timestamp(0, 0).unwrap()).to_raw(), "'1970-01-01T00:00:00Z'");
    assert_eq!(Value::from(Duration::from_secs(60)).to_raw(), "1m");
    assert_eq!(NumberLike::from(3).to_value().to_raw(), "3");
    assert_eq!(NumberLike::from(Field::new("f")).to_value().to_raw(), "f");
    assert_eq!(NumberLike::from(Param::new("p")).to_value().to_raw(), "$p");
    let instant = Datetime::from_timestamp(5, 6).unwrap();
    assert_eq!((instant.timestamp(), instant.timestamp_subsec_nanos()), (5, 6));
    let span = Duration::new(5, 6).unwrap();
    assert_eq!((span.as_secs(), span.subsec_nanos()), (5, 6));
}

#[test]
fn comparison_with_a_field_binds_nothing() {
    let mut alloc = BindingAllocator::new();
    let filter = Field::new("a").equal(&mut alloc, Field::new("b").to_value());
    assert_eq!(filter.build(), "a = b");
    assert_eq!(filter.to_raw(), "a = b");
    assert!(filter.get_bindings().is_empty());
    let next = Field::new("a").is_not(&mut alloc, Value::Number(1));
    assert_eq!(next.build(), "a IS NOT $_param_00000001");
}

#[test]
fn every_operator_has_its_symbol() {
    let mut alloc = BindingAllocator::new();
    let f = Field::new("f");
    let one = || Value::Number(1);
    assert_eq!(f.equal(&mut alloc, one()).to_raw(), "f = 1");
    assert_eq!(f.not_equal(&mut alloc, one()).to_raw(), "f != 1");
    assert_eq!(f.exactly_equal(&mut alloc, one()).to_raw(), "f == 1");
    assert_eq!(f.less_than(&mut alloc, one()).to_raw(), "f < 1");
    assert_eq!(f.less_than_or_equal(&mut alloc, one()).to_raw(), "f <= 1");
    assert_eq!(f.greater_than(&mut alloc, one()).to_raw(), "f > 1");
    assert_eq!(f.greater_than_or_equal(&mut alloc, one()).to_raw(), "f >= 1");
    assert_eq!(f.is(&mut alloc, one()).to_raw(), "f IS 1");
    assert_eq!(f.is_not(&mut alloc, one()).to_raw(), "f IS NOT 1");
    assert_eq!(f.like(&mut alloc, one()).to_raw(), "f ~ 1");
    assert_eq!(f.not_like(&mut alloc, one()).to_raw(), "f !~ 1");
    assert_eq!(f.compare(&mut alloc, Operator::Like, one()).build(), "f ~ $_param_00000012");
    assert_eq!(Operator::IsNot.symbol(), "IS NOT");
}

#[test]
fn grouping_is_explicit_at_every_step() {
    let mut alloc = BindingAllocator::new();
    let f = Field::new("f");
    let a = f.equal(&mut alloc, Value::Number(1));
    let b = f.equal(&mut alloc, Value::Number(2));
    let c = f.equal(&mut alloc, Value::Number(3));
    let left = cond(a.clone()).and(b.clone()).or(c.clone());
    let right = cond(a).and(cond(b).or(c));
    assert_eq!(left.to_raw(), "((f = 1) AND (f = 2)) OR (f = 3)");
    assert_eq!(right.to_raw(), "(f = 1) AND ((f = 2) OR (f = 3))");
    assert_ne!(left.to_raw(), right.to_raw());
    assert_ne!(left.build(), right.build());
    let names: Vec<String> = left.get_bindings().iter().map(|b| b.get_param()).collect();
    assert_eq!(names, vec!["_param_00000001", "_param_00000002", "_param_00000003"]);
    assert!(left.get_errors().is_empty());
    assert_eq!(Filter::empty().build(), "");
}

#[test]
fn placeholders_in_the_text_are_those_of_the_bindings() {
    let mut alloc = BindingAllocator::new();
    let mut fragment = Fragment::text("a ");
    fragment.push_binding(alloc.new_binding(Value::Number(1)));
    fragment.push_text(" b ");
    fragment.push_binding(alloc.new_binding(Value::Text("x".to_string())));
    let text = fragment.build();
    assert_eq!(text, "a $_param_00000001 b $_param_00000002");
    assert_eq!(text.matches('$').count(), fragment.get_bindings().len());
    assert!(fragment.is_placeholder_safe());
    assert_eq!(fragment.to_raw(), "a 1 b 'x'");

    // A dollar sign in caller text is no placeholder: the check says so.
    fragment.push_text("[$]");
    assert!(!fragment.is_placeholder_safe());
    assert!(!surreal_query_builder::fragment::is_dollar_free("pay $5"));
    assert!(surreal_query_builder::fragment::is_dollar_free("pay 5"));

    let copy = fragment.clone();
    assert_eq!(copy.build(), fragment.build());
    let mut joined = Fragment::new();
    joined.extend(&copy);
    joined.push_fragment(Fragment::slot(alloc.new_binding(Value::Number(9))));
    assert_eq!(
        joined.fine_tune_params(),
        "a $_param_00000001 b $_param_00000002[$]$_param_00000003"
    );
}
