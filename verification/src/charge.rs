//! Battery charge extraction and rendering.

use vstd::prelude::*;

use crate::text::push_char;
use crate::text::append_decimal;
use crate::text::spec_decimal;
use crate::value::assoc_lookup;
use crate::value::Value;
use crate::value::ValueKind;

verus! {

/// Battery charge (in percent), always within the closed range `[0, 100]`.
#[derive(Debug, Clone, Copy, PartialEq, Eq, Structural, PartialOrd, Ord, Hash)]
pub struct BatteryCharge {
    value: u8,
}

/// Why a battery charge could not be extracted from a property map. The
/// percentage is expected as one layer of variant boxing around an unsigned
/// integer no greater than one hundred; each departure from that shape is a
/// distinct failure.
#[derive(Debug, Clone, Copy, PartialEq, Eq, Structural)]
pub enum ChargeError {
    /// No `"Percentage"` key in the map.
    MissingPercentage,
    /// The `"Percentage"` value is not a variant wrapper; carries the
    /// observed kind.
    UnexpectedKind(ValueKind),
    /// The variant wrapper is empty.
    EmptyValue,
    /// The wrapped value is not an unsigned integer; carries the observed
    /// kind.
    WrongInnerKind(ValueKind),
    /// The wrapped integer is greater than one hundred; carries the value.
    OutOfRange(u64),
}

/// The charge percentage stored in a property map, if the `"Percentage"`
/// entry has the expected shape and range.
pub open spec fn spec_charge(entries: Seq<(String, Value)>) -> Option<u8> {
    match assoc_lookup(entries, "Percentage"@) {
        Some(Value::Wrapped(Some(inner))) => match *inner {
            Value::Uint(n) => if n <= 100 {
                Some(n as u8)
            } else {
                None
            },
            _ => None,
        },
        _ => None,
    }
}

/// The fixed-width rendering of a charge value: the decimal digits, right
/// aligned in a field of width two (so padded with one space below ten),
/// followed by `%`.
pub open spec fn charge_text(v: int) -> Seq<char> {
    if v < 10 {
        seq![' '] + spec_decimal(v) + seq!['%']
    } else {
        spec_decimal(v) + seq!['%']
    }
}

impl View for BatteryCharge {
    type V = u8;

    closed spec fn view(&self) -> u8 {
        self.value
    }
}

impl BatteryCharge {
    /// Extracts a battery charge percentage from a properties map.
    ///
    /// Succeeds exactly when the map holds `"Percentage"` as a non-empty
    /// variant wrapper around an unsigned integer of at most one hundred;
    /// every other shape yields the matching [`ChargeError`].
    pub fn new(properties: &Vec<(String, Value)>) -> (r: Result<BatteryCharge, ChargeError>)
        ensures
            match r {
                Ok(c) => spec_charge(properties@) == Some(c@),
                Err(e) => {
                    &&& spec_charge(properties@) is None
                    &&& match e {
                        ChargeError::MissingPercentage => assoc_lookup(
                            properties@,
                            "Percentage"@,
                        ) is None,
                        ChargeError::UnexpectedKind(k) => {
                            &&& assoc_lookup(properties@, "Percentage"@) matches Some(v)
                            &&& v.spec_kind() == k
                            &&& k != ValueKind::Wrapped
                        },
                        ChargeError::EmptyValue => assoc_lookup(properties@, "Percentage"@)
                            == Some(Value::Wrapped(None)),
                        ChargeError::WrongInnerKind(k) => {
                            &&& assoc_lookup(properties@, "Percentage"@) matches Some(
                                Value::Wrapped(Some(inner)),
                            )
                            &&& inner.spec_kind() == k
                            &&& k != ValueKind::Uint
                        },
                        ChargeError::OutOfRange(n) => {
                            &&& assoc_lookup(properties@, "Percentage"@) matches Some(
                                Value::Wrapped(Some(inner)),
                            )
                            &&& *inner == Value::Uint(n)
                            &&& n > 100
                        },
                    }
                },
            },
    {
        let percentage = match crate::value::assoc_get(properties, "Percentage") {
            None => {
                return Err(ChargeError::MissingPercentage);
            },
            Some(v) => v,
        };
        let wrapped = match percentage {
            Value::Wrapped(inner) => inner,
            _ => {
                return Err(ChargeError::UnexpectedKind(percentage.kind()));
            },
        };
        let inner = match wrapped {
            Some(b) => &**b,
            None => {
                return Err(ChargeError::EmptyValue);
            },
        };
        let n = match inner {
            Value::Uint(n) => *n,
            _ => {
                return Err(ChargeError::WrongInnerKind(inner.kind()));
            },
        };
        if n > 100 {
            return Err(ChargeError::OutOfRange(n));
        }
        Ok(BatteryCharge { value: n as u8 })
    }

    /// Wraps an already validated charge percentage.
    pub fn from_value(value: u8) -> (r: BatteryCharge)
        requires
            value <= 100,
        ensures
            r@ == value,
    {
        BatteryCharge { value }
    }

    /// The charge percentage.
    pub fn value(&self) -> (v: u8)
        ensures
            v == self@,
    {
        self.value
    }

    /// Renders the charge as [`charge_text`] describes: e.g. `" 1%"`,
    /// `"99%"`, `"100%"`.
    pub fn render(&self) -> (r: String)
        ensures
            r@ == charge_text(self@ as int),
    {
        let mut s = String::new();
        if self.value < 10 {
            push_char(&mut s, ' ');
        }
        append_decimal(&mut s, self.value);
        push_char(&mut s, '%');
        assert(s@ =~= charge_text(self@ as int));
        s
    }
}

/// The rendered charge always ends in `%`; below one hundred it is exactly
/// three characters, the decimal digits right aligned in a width-two field
/// (padded with a space below ten), and one hundred renders as `"100%"`.
pub proof fn lemma_charge_text_shape(v: int)
    requires
        0 <= v <= 100,
    ensures
        v < 100 ==> charge_text(v).len() == 3,
        v < 10 ==> charge_text(v)[0] == ' ' && charge_text(v)[1] == crate::text::spec_digit(v),
        10 <= v < 100 ==> charge_text(v)[0] == crate::text::spec_digit(v / 10) && charge_text(
            v,
        )[1] == crate::text::spec_digit(v % 10),
        v == 100 ==> charge_text(v) == "100%"@,
        charge_text(v).len() >= 3,
        charge_text(v)[charge_text(v).len() - 1] == '%',
{
    reveal_strlit("100%");
    if v == 100 {
        assert(charge_text(v) =~= "100%"@);
    }
}

} // verus!
