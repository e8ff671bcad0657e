use context_graph::node_types::{Dataoid, Root};
use context_graph::protocols::Identifiable;
use context_graph::time_scale::TimeScale;

#[test]
fn dateoid_tests_test_new() {
    let id = 1;
    let data = 42;

    let d = Dataoid::new(id, data);
    assert_eq!(d.id(), id);
}

#[test]
fn dateoid_tests_test_id() {
    let id = 1;
    let data = 42;

    let d = Dataoid::new(id, data);
    assert_eq!(d.id(), id);
}

#[test]
fn test_data() {
    let id = 1;
    let data = 42;

    let d = Dataoid::new(id, data);
    assert_eq!(d.id(), id);
    assert_eq!(d.data(), data);
}

#[test]
fn dateoid_tests_test_to_string() {
    let id = 1;
    let data = 42;

    let d = Dataoid::new(id, data);
    assert_eq!(d.id(), id);
    assert_eq!(d.data(), data);

    let exp = format!("Dataoid: id: {} data: {}", id, data);
    let act = d.to_string();
    assert_eq!(act, exp);
}

#[test]
fn root_tests_test_new() {
    let id = 1;
    let d = Root::new(id);
    assert_eq!(d.id(), id);
}

#[test]
fn root_tests_test_id() {
    let id = 1;

    let d = Root::new(id);
    assert_eq!(d.id(), id);
}

#[test]
fn root_tests_test_to_string() {
    let id = 1;

    let d = Root::new(id);
    assert_eq!(d.id(), id);

    let exp = format!("Root ID: {}", id);
    let act = d.to_string();
    assert_eq!(act, exp);
}

#[test]
fn dataoid_text_with_negative_data() {
    let d = Dataoid::new(7, -15);
    assert_eq!(d.to_string(), "Dataoid: id: 7 data: -15");
    let lowest = Dataoid::new(0, i32::MIN);
    assert_eq!(lowest.to_string(), "Dataoid: id: 0 data: -2147483648");
}

#[test]
fn dataoid_values_compare_by_both_fields() {
    assert_eq!(Dataoid::new(1, 42), Dataoid::new(1, 42));
    assert_ne!(Dataoid::new(1, 42), Dataoid::new(2, 42));
    assert_ne!(Dataoid::new(1, 42), Dataoid::new(1, 43));
}

#[test]
fn root_text_with_largest_id() {
    let r = Root::new(u64::MAX);
    assert_eq!(r.to_string(), "Root ID: 18446744073709551615");
}

#[test]
fn time_scale_names() {
    assert_eq!(TimeScale::NoScale.to_string(), "NoScale");
    assert_eq!(TimeScale::Nanosecond.to_string(), "Nanosecond");
    assert_eq!(TimeScale::Millisecond.to_string(), "Millisecond");
    assert_eq!(TimeScale::Second.to_string(), "Second");
    assert_eq!(TimeScale::Minute.to_string(), "Minute");
    assert_eq!(TimeScale::Hour.to_string(), "Hour");
    assert_eq!(TimeScale::Day.to_string(), "Day");
    assert_eq!(TimeScale::Week.to_string(), "Week");
    assert_eq!(TimeScale::Month.to_string(), "Month");
    assert_eq!(TimeScale::Quarter.to_string(), "Quarter");
    assert_eq!(TimeScale::Year.to_string(), "Year");
}

#[test]
fn time_scale_is_a_plain_value() {
    let a = TimeScale::Hour;
    let b = a;
    assert_eq!(a, b);
    assert_ne!(TimeScale::Hour, TimeScale::Day);
    assert_eq!(format!("{:?}", TimeScale::Quarter), TimeScale::Quarter.to_string());
}
