use surreal_query_builder::binding::BindingAllocator;
use surreal_query_builder::field::Field;
use surreal_query_builder::functions::{day_fn, floor_fn, DatetimeLike, DurationLike};
use surreal_query_builder::value::{Datetime, Duration};

#[test]
fn test_day_macro_with_datetime_field() {
    let mut alloc = BindingAllocator::new();
    let rebirth_date = Field::new("rebirth_date");
    let result = day_fn(&mut alloc, rebirth_date.into());

    assert_eq!(result.fine_tune_params(), "time::day($_param_00000001)");
    assert_eq!(result.to_raw().to_string(), "time::day(rebirth_date)");
}

#[test]
#[allow(deprecated)]
fn test_day_macro_with_plain_datetime() {
    let mut alloc = BindingAllocator::new();
    let dt = chrono::DateTime::<chrono::Utc>::from_utc(
        chrono::NaiveDateTime::from_timestamp(61, 0),
        chrono::Utc,
    );
    let dt = Datetime::from_timestamp(dt.timestamp(), dt.timestamp_subsec_nanos()).unwrap();
    let result = day_fn(&mut alloc, dt.into());
    assert_eq!(result.fine_tune_params(), "time::day($_param_00000001)");
    assert_eq!(
        result.to_raw().to_string(),
        "time::day('1970-01-01T00:01:01Z')"
    );
}

#[test]
fn test_floor_macro_with_datetime_field() {
    let mut alloc = BindingAllocator::new();
    let rebirth_date = Field::new("rebirth_date");
    let duration = Field::new("duration");
    let result = floor_fn(&mut alloc, rebirth_date.into(), duration.into());

    assert_eq!(
        result.fine_tune_params(),
        "time::floor($_param_00000001, $_param_00000002)"
    );
    assert_eq!(
        result.to_raw().to_string(),
        "time::floor(rebirth_date, duration)"
    );
}

#[test]
#[allow(deprecated)]
fn test_floor_macro_with_plain_datetime_and_duration() {
    let mut alloc = BindingAllocator::new();
    let dt = chrono::DateTime::<chrono::Utc>::from_utc(
        chrono::NaiveDateTime::from_timestamp(61, 0),
        chrono::Utc,
    );
    let dt = Datetime::from_timestamp(dt.timestamp(), dt.timestamp_subsec_nanos()).unwrap();
    let duration = std::time::Duration::from_secs(24 * 60 * 60 * 7);
    let duration = Duration::new(duration.as_secs(), duration.subsec_nanos()).unwrap();
    let result = floor_fn(&mut alloc, dt.into(), duration.into());
    assert_eq!(
        result.fine_tune_params(),
        "time::floor($_param_00000001, $_param_00000002)"
    );
    assert_eq!(
        result.to_raw().to_string(),
        "time::floor('1970-01-01T00:01:01Z', 1w)"
    );
}

#[test]
fn function_arguments_that_cannot_be_bound_are_recorded() {
    let mut alloc = BindingAllocator::new();
    let good = day_fn(&mut alloc, DatetimeLike::Field(Field::new("born")));
    assert!(good.get_errors().is_empty());
    assert_eq!(good.build(), "time::day($_param_00000001)");
    assert_eq!(good.get_bindings().len(), 1);
    let bad = floor_fn(
        &mut alloc,
        DatetimeLike::Field(Field::new("bo\0rn")),
        DurationLike::Field(Field::new("sp\0an")),
    );
    assert_eq!(bad.get_errors().len(), 2);
    assert_eq!(bad.build(), "time::floor($_param_00000002, $_param_00000003)");
}
