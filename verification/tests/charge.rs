use bluez_battery::BatteryCharge;
use bluez_battery::ChargeError;
use bluez_battery::Value;
use bluez_battery::ValueKind;

fn bag(entries: Vec<(&str, Value)>) -> Vec<(String, Value)> {
    entries.into_iter().map(|(k, v)| (k.to_string(), v)).collect()
}

fn percentage(v: Value) -> Vec<(String, Value)> {
    bag(vec![("Percentage", v)])
}

#[test]
fn display() {
    assert_eq!(" 1%", BatteryCharge::from_value(1).render());
    assert_eq!("99%", BatteryCharge::from_value(99).render());
    assert_eq!("100%", BatteryCharge::from_value(100).render());
}

#[test]
fn display_zero_is_padded() {
    assert_eq!(" 0%", BatteryCharge::from_value(0).render());
}

#[test]
fn extracts_wrapped_percentage() {
    let properties = percentage(Value::Wrapped(Some(Box::new(Value::Uint(42)))));
    let charge = BatteryCharge::new(&properties).unwrap();
    assert_eq!(42, charge.value());
}

#[test]
fn extracts_boundary_values() {
    let zero = percentage(Value::Wrapped(Some(Box::new(Value::Uint(0)))));
    assert_eq!(0, BatteryCharge::new(&zero).unwrap().value());
    let full = percentage(Value::Wrapped(Some(Box::new(Value::Uint(100)))));
    assert_eq!(100, BatteryCharge::new(&full).unwrap().value());
}

#[test]
fn rejects_missing_key() {
    let properties = bag(vec![("Other", Value::Uint(42))]);
    let err = BatteryCharge::new(&properties).unwrap_err();
    assert_eq!(ChargeError::MissingPercentage, err);
}

#[test]
fn rejects_non_variant_outer_kind() {
    let properties = percentage(Value::Uint(42));
    let err = BatteryCharge::new(&properties).unwrap_err();
    assert_eq!(ChargeError::UnexpectedKind(ValueKind::Uint), err);
}

#[test]
fn rejects_empty_inner_value() {
    let properties = percentage(Value::Wrapped(None));
    let err = BatteryCharge::new(&properties).unwrap_err();
    assert_eq!(ChargeError::EmptyValue, err);
}

#[test]
fn rejects_non_numeric_inner_value() {
    let properties = percentage(Value::Wrapped(Some(Box::new(Value::Text(
        "42".to_string(),
    )))));
    let err = BatteryCharge::new(&properties).unwrap_err();
    assert_eq!(ChargeError::WrongInnerKind(ValueKind::Text), err);
}

#[test]
fn rejects_out_of_range_value() {
    let properties = percentage(Value::Wrapped(Some(Box::new(Value::Uint(101)))));
    let err = BatteryCharge::new(&properties).unwrap_err();
    assert_eq!(ChargeError::OutOfRange(101), err);
}
