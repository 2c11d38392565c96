//! Device identity extraction, matching and rendering.

use vstd::prelude::*;

use crate::filter::ci_matches;
use crate::filter::Filter;
use crate::value::get_string_property;
use crate::value::spec_prop_error;
use crate::value::spec_string_prop;
use crate::value::str_eq;
use crate::value::assoc_get;
use crate::value::PropertyError;
use crate::value::Value;

verus! {

/// A device description: a required name and address, plus a best-effort
/// alias and icon.
#[derive(Debug, Hash, PartialEq, Eq, PartialOrd, Ord, Clone)]
pub struct Device {
    name: String,
    alias: Option<String>,
    address: String,
    icon: Option<String>,
}

/// The mathematical content of a [`Device`]: its four identity fields as
/// character sequences.
pub struct DeviceView {
    /// The device name.
    pub name: Seq<char>,
    /// The alias, when the source map held one as a string.
    pub alias: Option<Seq<char>>,
    /// The device address.
    pub address: Seq<char>,
    /// The icon name, when the source map held one as a string.
    pub icon: Option<Seq<char>>,
}

/// The device described by a property map: present exactly when both
/// `"Address"` and `"Name"` are string properties, with `"Alias"` and
/// `"Icon"` taken opportunistically (a missing or non-string value simply
/// leaves them absent).
pub open spec fn spec_device(entries: Seq<(String, Value)>) -> Option<DeviceView> {
    if spec_string_prop(entries, "Address"@) is Some && spec_string_prop(entries, "Name"@)
        is Some {
        Some(
            DeviceView {
                name: spec_string_prop(entries, "Name"@)->Some_0,
                alias: spec_string_prop(entries, "Alias"@),
                address: spec_string_prop(entries, "Address"@)->Some_0,
                icon: spec_string_prop(entries, "Icon"@),
            },
        )
    } else {
        None
    }
}

/// The name a device is shown under: its alias when present, else its name.
pub open spec fn spec_display_name(d: DeviceView) -> Seq<char> {
    match d.alias {
        Some(a) => a,
        None => d.name,
    }
}

/// Whether the case-insensitive `pattern` matches a device: it must match
/// the name, the alias (an absent alias contributes no match), or the
/// address.
pub open spec fn spec_matches(d: DeviceView, pattern: Seq<char>) -> bool {
    ||| ci_matches(pattern, d.name)
    ||| (match d.alias {
        Some(a) => ci_matches(pattern, a),
        None => false,
    })
    ||| ci_matches(pattern, d.address)
}

/// The full rendering of a device, three-way: an alias that differs from
/// the name is shown as `"{alias} ({name}, {address})"`, an alias equal to
/// the name as `"{alias} ({address})"`, and a missing alias as
/// `"{name} ({address})"`.
pub open spec fn device_text(d: DeviceView) -> Seq<char> {
    match d.alias {
        Some(alias) => if alias != d.name {
            alias + " ("@ + d.name + ", "@ + d.address + ")"@
        } else {
            alias + " ("@ + d.address + ")"@
        },
        None => d.name + " ("@ + d.address + ")"@,
    }
}

impl View for Device {
    type V = DeviceView;

    closed spec fn view(&self) -> DeviceView {
        DeviceView {
            name: self.name@,
            alias: match self.alias {
                Some(a) => Some(a@),
                None => None,
            },
            address: self.address@,
            icon: match self.icon {
                Some(i) => Some(i@),
                None => None,
            },
        }
    }
}

impl Device {
    /// Creates a [`Device`] from a properties list.
    ///
    /// Succeeds exactly when `"Address"` and `"Name"` are string properties;
    /// the error reports the first of the two (address checked first) that
    /// is missing or not a string.
    pub fn new(properties: &Vec<(String, Value)>) -> (r: Result<Device, PropertyError>)
        ensures
            match r {
                Ok(d) => spec_device(properties@) == Some(d@),
                Err(e) => {
                    &&& spec_device(properties@) is None
                    &&& spec_prop_error(properties@, e.key@, e.kind)
                    &&& if spec_string_prop(properties@, "Address"@) is None {
                        e.key@ == "Address"@
                    } else {
                        e.key@ == "Name"@ && spec_string_prop(properties@, "Name"@) is None
                    }
                },
            },
    {
        let address = match get_string_property(properties, "Address") {
            Ok(a) => a,
            Err(e) => {
                return Err(e);
            },
        };
        let name = match get_string_property(properties, "Name") {
            Ok(n) => n,
            Err(e) => {
                return Err(e);
            },
        };
        let alias = match assoc_get(properties, "Alias") {
            Some(Value::Text(t)) => Some(t.clone()),
            _ => None,
        };
        let icon = match assoc_get(properties, "Icon") {
            Some(Value::Text(t)) => Some(t.clone()),
            _ => None,
        };
        Ok(Device { name, alias, address, icon })
    }

    /// Returns the device name.
    pub fn name(&self) -> (r: &str)
        ensures
            r@ == self@.name,
    {
        self.name.as_str()
    }

    /// Returns either an alias (if it exists) or the name of the device.
    pub fn display_name(&self) -> (r: &str)
        ensures
            r@ == spec_display_name(self@),
    {
        match &self.alias {
            Some(a) => a.as_str(),
            None => self.name.as_str(),
        }
    }

    /// Returns the device address.
    pub fn address(&self) -> (r: &str)
        ensures
            r@ == self@.address,
    {
        self.address.as_str()
    }

    /// Returns `true` if the identifier matches either the name, the alias
    /// or the address of the device.
    pub fn matches(&self, identifier: &Filter) -> (r: bool)
        ensures
            r == spec_matches(self@, identifier.pattern_view()),
    {
        if identifier.is_match(self.name.as_str()) {
            return true;
        }
        if let Some(a) = &self.alias {
            if identifier.is_match(a.as_str()) {
                return true;
            }
        }
        identifier.is_match(self.address.as_str())
    }

    /// Returns the alias, when the source held one.
    pub fn alias(&self) -> (r: Option<&str>)
        ensures
            match r {
                Some(a) => self@.alias == Some(a@),
                None => self@.alias is None,
            },
    {
        match &self.alias {
            Some(a) => Some(a.as_str()),
            None => None,
        }
    }

    /// Associated icon name.
    pub fn icon(&self) -> (r: Option<&str>)
        ensures
            match r {
                Some(i) => self@.icon == Some(i@),
                None => self@.icon is None,
            },
    {
        match &self.icon {
            Some(i) => Some(i.as_str()),
            None => None,
        }
    }

    /// Renders the device as [`device_text`] describes.
    pub fn render(&self) -> (r: String)
        ensures
            r@ == device_text(self@),
    {
        let mut s = String::new();
        match &self.alias {
            Some(alias) => {
                if !str_eq(alias.as_str(), self.name.as_str()) {
                    s.append(alias.as_str());
                    s.append(" (");
                    s.append(self.name.as_str());
                    s.append(", ");
                    s.append(self.address.as_str());
                    s.append(")");
                } else {
                    s.append(alias.as_str());
                    s.append(" (");
                    s.append(self.address.as_str());
                    s.append(")");
                }
            },
            None => {
                s.append(self.name.as_str());
                s.append(" (");
                s.append(self.address.as_str());
                s.append(")");
            },
        }
        s
    }
}

} // verus!
