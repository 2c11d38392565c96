use bluez_battery::render_json;
use bluez_battery::render_line;
use bluez_battery::BatteryCharge;
use bluez_battery::Device;
use bluez_battery::DeviceWithCharge;
use bluez_battery::Devices;
use bluez_battery::ManagedObject;
use bluez_battery::Value;

fn text_bag(entries: Vec<(&str, &str)>) -> Vec<(String, Value)> {
    entries
        .into_iter()
        .map(|(k, v)| (k.to_string(), Value::Text(v.to_string())))
        .collect()
}

fn result(fields: Vec<(&str, &str)>, percent: u8) -> DeviceWithCharge {
    let bag = text_bag(fields);
    DeviceWithCharge {
        device: Device::new(&bag).unwrap(),
        charge: BatteryCharge::from_value(percent),
    }
}

fn objects(names: Vec<(&str, &str, u64)>) -> Vec<ManagedObject> {
    names
        .into_iter()
        .map(|(name, address, percent)| ManagedObject {
            path: format!("/{}", name),
            interfaces: vec![
                (
                    "org.bluez.Device1".to_string(),
                    text_bag(vec![("Name", name), ("Address", address)]),
                ),
                (
                    "org.bluez.Battery1".to_string(),
                    vec![(
                        "Percentage".to_string(),
                        Value::Wrapped(Some(Box::new(Value::Uint(percent)))),
                    )],
                ),
            ],
        })
        .collect()
}

#[test]
fn line_shows_device_and_charge() {
    let one = result(vec![("Name", "Foo"), ("Address", "AA:BB")], 7);
    assert_eq!("Foo (AA:BB):  7%", render_line(&one));
    let with_alias = result(
        vec![("Name", "Foo"), ("Address", "AA:BB"), ("Alias", "Bar")],
        100,
    );
    assert_eq!("Bar (Foo, AA:BB): 100%", render_line(&with_alias));
}

#[test]
fn json_document_shape() {
    let one = result(
        vec![
            ("Name", "Foo"),
            ("Address", "AA:BB"),
            ("Alias", "Bar"),
            ("Icon", "audio-headset"),
        ],
        42,
    );
    let rendered = render_json(&vec![one]);
    assert_eq!(
        "[{\"name\":\"Foo\",\"alias\":\"Bar\",\"address\":\"AA:BB\",\"icon\":\"audio-headset\",\"charge\":42}]",
        rendered
    );
    let none: Vec<DeviceWithCharge> = Vec::new();
    assert_eq!("[]", render_json(&none));
}

#[test]
fn json_omits_absent_alias_and_icon() {
    let one = result(vec![("Name", "Foo"), ("Address", "AA:BB")], 3);
    assert_eq!(
        "[{\"name\":\"Foo\",\"address\":\"AA:BB\",\"charge\":3}]",
        render_json(&vec![one])
    );
}

#[test]
fn json_escapes_special_characters() {
    let one = result(vec![("Name", "Fo\"o\\\n"), ("Address", "AA:BB")], 5);
    let rendered = render_json(&vec![one]);
    let parsed: serde_json::Value = serde_json::from_str(&rendered).unwrap();
    let entries = parsed.as_array().unwrap();
    assert_eq!(1, entries.len());
    assert_eq!("Fo\"o\\\n", entries[0]["name"].as_str().unwrap());
}

#[test]
fn document_consumes_and_renders_the_walk() {
    let mut devices = Devices::new(objects(vec![("Foo", "AA:BB", 10)]), None);
    let rendered = bluez_battery::render_document(&mut devices);
    assert_eq!(
        "[{\"name\":\"Foo\",\"address\":\"AA:BB\",\"charge\":10}]",
        rendered
    );
    assert!(devices.next().is_none());
}

#[test]
fn json_element_count_matches_iterator_yield() {
    let count_source = objects(vec![
        ("Foo", "AA:BB", 10),
        ("Bar", "CC:DD", 20),
        ("Baz", "EE:FF", 30),
    ]);
    let mut walker = Devices::new(count_source, None);
    let mut yielded: usize = 0;
    while walker.next().is_some() {
        yielded += 1;
    }
    let render_source = objects(vec![
        ("Foo", "AA:BB", 10),
        ("Bar", "CC:DD", 20),
        ("Baz", "EE:FF", 30),
    ]);
    let mut devices = Devices::new(render_source, None);
    let rendered = render_json(&devices.collect_all());
    let parsed: serde_json::Value = serde_json::from_str(&rendered).unwrap();
    let entries = parsed.as_array().unwrap();
    assert_eq!(yielded, entries.len());
    assert_eq!(3, entries.len());
    assert_eq!("Foo", entries[0]["name"].as_str().unwrap());
    assert_eq!(10, entries[0]["charge"].as_u64().unwrap());
    assert_eq!("Baz", entries[2]["name"].as_str().unwrap());
}
