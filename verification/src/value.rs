//! The dynamic value model: property maps hand back loosely typed values,
//! modelled here as a small closed set of tagged variants with explicit,
//! failure-reporting narrowing operations.

use vstd::prelude::*;

verus! {

/// One dynamically typed property value, as found in a property map.
///
/// A remote property is either a plain string, an unsigned integer, one
/// layer of variant boxing around another value (possibly empty), or some
/// kind this library does not read.
#[derive(Debug)]
pub enum Value {
    /// A string value.
    Text(String),
    /// An unsigned integer value.
    Uint(u64),
    /// One layer of variant boxing; `None` models an empty variant.
    Wrapped(Option<Box<Value>>),
    /// Any other kind of value.
    Other,
}

/// The kind of a [`Value`], used in diagnostics when a narrowing fails.
#[derive(Clone, Copy, PartialEq, Eq, Structural, Debug)]
pub enum ValueKind {
    /// Kind of [`Value::Text`].
    Text,
    /// Kind of [`Value::Uint`].
    Uint,
    /// Kind of [`Value::Wrapped`].
    Wrapped,
    /// Kind of [`Value::Other`].
    Other,
}

impl Value {
    /// The kind tag of this value.
    pub open spec fn spec_kind(&self) -> ValueKind {
        match self {
            Value::Text(_) => ValueKind::Text,
            Value::Uint(_) => ValueKind::Uint,
            Value::Wrapped(_) => ValueKind::Wrapped,
            Value::Other => ValueKind::Other,
        }
    }

    /// Returns the kind tag of this value.
    #[verifier::when_used_as_spec(spec_kind)]
    pub fn kind(&self) -> (k: ValueKind)
        ensures
            k == self.spec_kind(),
    {
        match self {
            Value::Text(_) => ValueKind::Text,
            Value::Uint(_) => ValueKind::Uint,
            Value::Wrapped(_) => ValueKind::Wrapped,
            Value::Other => ValueKind::Other,
        }
    }
}

/// Looks a key up in an association list, taking the first entry whose key
/// matches. Mirrors a map lookup on a map with unique keys.
pub open spec fn assoc_lookup<T>(entries: Seq<(String, T)>, key: Seq<char>) -> Option<T>
    decreases entries.len(),
{
    if entries.len() == 0 {
        None
    } else if entries[0].0@ == key {
        Some(entries[0].1)
    } else {
        assoc_lookup(entries.drop_first(), key)
    }
}

/// Character-by-character string equality, proved against the string views.
pub fn str_eq(a: &str, b: &str) -> (r: bool)
    ensures
        r == (a@ == b@),
{
    let a_len = a.unicode_len();
    let b_len = b.unicode_len();
    if a_len != b_len {
        assert(a@ != b@) by {
            assert(a@.len() != b@.len());
        }
        return false;
    }
    let mut i: usize = 0;
    while i < a_len
        invariant
            a_len == a@.len(),
            b_len == b@.len(),
            a_len == b_len,
            0 <= i <= a_len,
            forall|j: int| 0 <= j < i ==> a@[j] == b@[j],
        decreases a_len - i,
    {
        if a.get_char(i) != b.get_char(i) {
            return false;
        }
        i += 1;
    }
    assert(a@ =~= b@);
    true
}

/// Finds the first entry under `key` in an association list and hands back a
/// reference to its value.
pub fn assoc_get<'a, T>(entries: &'a Vec<(String, T)>, key: &str) -> (r: Option<&'a T>)
    ensures
        match r {
            Some(v) => assoc_lookup(entries@, key@) == Some(*v),
            None => assoc_lookup(entries@, key@) is None,
        },
{
    let mut i: usize = 0;
    proof {
        assert(entries@.skip(0) =~= entries@);
    }
    while i < entries.len()
        invariant
            0 <= i <= entries@.len(),
            assoc_lookup(entries@, key@) == assoc_lookup(entries@.skip(i as int), key@),
        decreases entries@.len() - i,
    {
        proof {
            assert(entries@.skip(i as int)[0] == entries@[i as int]);
        }
        if str_eq(entries[i].0.as_str(), key) {
            return Some(&entries[i].1);
        }
        proof {
            assert(entries@.skip(i as int).drop_first() =~= entries@.skip(i + 1));
        }
        i += 1;
    }
    proof {
        assert(entries@.skip(i as int).len() == 0);
    }
    None
}

/// Why a required string property could not be read from a property map.
#[derive(Debug, Clone, Copy, PartialEq, Eq, Structural)]
pub enum PropertyErrorKind {
    /// The key is absent from the map.
    Missing,
    /// The key is present but its value is not a string; carries the
    /// observed kind.
    NotText(ValueKind),
}

/// A failure to read a required string property, carrying the property name
/// for diagnostics.
#[derive(Debug)]
pub struct PropertyError {
    /// The property name that was looked up.
    pub key: String,
    /// What went wrong.
    pub kind: PropertyErrorKind,
}

/// What a [`PropertyErrorKind`] reports of the map it came from: `Missing`
/// exactly when the key is absent, `NotText` exactly when the key holds a
/// value of the carried, non-string kind.
pub open spec fn spec_prop_error(
    entries: Seq<(String, Value)>,
    key: Seq<char>,
    kind: PropertyErrorKind,
) -> bool {
    match kind {
        PropertyErrorKind::Missing => assoc_lookup(entries, key) is None,
        PropertyErrorKind::NotText(k) => {
            &&& assoc_lookup(entries, key) matches Some(v)
            &&& v.spec_kind() == k
            &&& k != ValueKind::Text
        },
    }
}

/// The string stored under `key`, if the key is present with a string value.
pub open spec fn spec_string_prop(entries: Seq<(String, Value)>, key: Seq<char>) -> Option<
    Seq<char>,
> {
    match assoc_lookup(entries, key) {
        Some(Value::Text(t)) => Some(t@),
        _ => None,
    }
}

/// Extracts a property value as an owned string.
///
/// Fails with [`PropertyErrorKind::Missing`] when the key is absent and with
/// [`PropertyErrorKind::NotText`] when the stored value is not a string.
pub fn get_string_property(properties: &Vec<(String, Value)>, property: &str) -> (r: Result<
    String,
    PropertyError,
>)
    ensures
        match r {
            Ok(s) => spec_string_prop(properties@, property@) == Some(s@),
            Err(e) => {
                &&& spec_string_prop(properties@, property@) is None
                &&& e.key@ == property@
                &&& spec_prop_error(properties@, property@, e.kind)
            },
        },
{
    match assoc_get(properties, property) {
        None => Err(
            PropertyError { key: property.to_owned(), kind: PropertyErrorKind::Missing },
        ),
        Some(value) => match value {
            Value::Text(t) => Ok(t.clone()),
            _ => Err(
                PropertyError { key: property.to_owned(), kind: PropertyErrorKind::NotText(value.kind()) },
            ),
        },
    }
}

} // verus!
