use osvr::{ButtonReport, TimeValue};

#[test]
fn time_value_gives_back_its_parts() {
    let t = TimeValue::new(1_500_000_000, 250_000);
    assert_eq!(t.seconds(), 1_500_000_000);
    assert_eq!(t.microseconds(), 250_000);
}

#[test]
fn time_value_keeps_extreme_parts() {
    let t = TimeValue::new(i64::MIN, i32::MAX);
    assert_eq!(t.seconds(), i64::MIN);
    assert_eq!(t.microseconds(), i32::MAX);
}

#[test]
fn button_report_gives_back_its_parts() {
    let pressed = ButtonReport::new(3, 1);
    assert_eq!(pressed.sensor(), 3);
    assert_eq!(pressed.state(), 1);
    let released = ButtonReport::new(0, 0);
    assert_eq!(released.sensor(), 0);
    assert_eq!(released.state(), 0);
}
