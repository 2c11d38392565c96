use bluez_battery::Device;
use bluez_battery::Filter;
use bluez_battery::PropertyErrorKind;
use bluez_battery::Value;
use bluez_battery::ValueKind;

fn bag(entries: Vec<(&str, &str)>) -> Vec<(String, Value)> {
    entries
        .into_iter()
        .map(|(k, v)| (k.to_string(), Value::Text(v.to_string())))
        .collect()
}

#[test]
fn constructs_from_name_and_address() {
    let properties = bag(vec![("Name", "Foo"), ("Address", "AA:BB")]);
    let device = Device::new(&properties).unwrap();
    assert_eq!("Foo", device.name());
    assert_eq!("AA:BB", device.address());
    assert_eq!(None, device.alias());
    assert_eq!(None, device.icon());
}

#[test]
fn accepts_missing_alias_and_icon() {
    let properties = bag(vec![("Name", "Foo"), ("Address", "AA:BB")]);
    assert!(Device::new(&properties).is_ok());
    let with_extras = bag(vec![
        ("Name", "Foo"),
        ("Address", "AA:BB"),
        ("Alias", "Bar"),
        ("Icon", "audio-headset"),
    ]);
    let device = Device::new(&with_extras).unwrap();
    assert_eq!(Some("Bar"), device.alias());
    assert_eq!(Some("audio-headset"), device.icon());
}

#[test]
fn ignores_non_string_alias() {
    let mut properties = bag(vec![("Name", "Foo"), ("Address", "AA:BB")]);
    properties.push(("Alias".to_string(), Value::Uint(7)));
    let device = Device::new(&properties).unwrap();
    assert_eq!(None, device.alias());
}

#[test]
fn rejects_missing_name() {
    let properties = bag(vec![("Address", "AA:BB")]);
    let err = Device::new(&properties).unwrap_err();
    assert_eq!("Name", err.key);
    assert_eq!(PropertyErrorKind::Missing, err.kind);
}

#[test]
fn rejects_missing_address() {
    let properties = bag(vec![("Name", "Foo")]);
    let err = Device::new(&properties).unwrap_err();
    assert_eq!("Address", err.key);
    assert_eq!(PropertyErrorKind::Missing, err.kind);
}

#[test]
fn rejects_non_string_name() {
    let mut properties = bag(vec![("Address", "AA:BB")]);
    properties.push(("Name".to_string(), Value::Uint(3)));
    let err = Device::new(&properties).unwrap_err();
    assert_eq!("Name", err.key);
    assert_eq!(PropertyErrorKind::NotText(ValueKind::Uint), err.kind);
}

#[test]
fn display_name_prefers_alias() {
    let properties = bag(vec![("Name", "Foo"), ("Address", "AA:BB"), ("Alias", "Bar")]);
    let device = Device::new(&properties).unwrap();
    assert_eq!("Bar", device.display_name());
    let plain = bag(vec![("Name", "Foo"), ("Address", "AA:BB")]);
    let device = Device::new(&plain).unwrap();
    assert_eq!("Foo", device.display_name());
}

#[test]
fn matches_name_alias_or_address_case_insensitively() {
    let properties = bag(vec![("Name", "Foo"), ("Address", "AA:BB"), ("Alias", "Bar")]);
    let device = Device::new(&properties).unwrap();
    assert!(device.matches(&Filter::new("FOO".to_string()).unwrap()));
    assert!(device.matches(&Filter::new("bar".to_string()).unwrap()));
    assert!(device.matches(&Filter::new("aa:bb".to_string()).unwrap()));
    assert!(!device.matches(&Filter::new("Quux".to_string()).unwrap()));
    assert!(device.matches(&Filter::new("^fo+$".to_string()).unwrap()));
}

#[test]
fn matches_is_false_without_alias_when_nothing_matches() {
    let properties = bag(vec![("Name", "Foo"), ("Address", "AA:BB")]);
    let device = Device::new(&properties).unwrap();
    assert!(!device.matches(&Filter::new("Bar".to_string()).unwrap()));
}

#[test]
fn invalid_pattern_is_rejected() {
    assert!(Filter::new("[".to_string()).is_err());
}

#[test]
fn renders_three_forms() {
    let no_alias = bag(vec![("Name", "Foo"), ("Address", "AA:BB")]);
    assert_eq!("Foo (AA:BB)", Device::new(&no_alias).unwrap().render());
    let equal_alias = bag(vec![("Name", "Foo"), ("Address", "AA:BB"), ("Alias", "Foo")]);
    assert_eq!("Foo (AA:BB)", Device::new(&equal_alias).unwrap().render());
    let other_alias = bag(vec![("Name", "Foo"), ("Address", "AA:BB"), ("Alias", "Bar")]);
    assert_eq!("Bar (Foo, AA:BB)", Device::new(&other_alias).unwrap().render());
}
