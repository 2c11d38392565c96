//! Reads Bluetooth device identities and battery charges out of the untyped
//! property maps that a system object manager hands back, filters them by an
//! optional case-insensitive pattern, and renders the results as text lines
//! or as a JSON array.

use vstd::prelude::*;

mod charge;
mod device;
mod devices;
mod filter;
mod render;
mod text;
mod value;

pub use charge::charge_text;
pub use charge::lemma_charge_text_shape;
pub use charge::spec_charge;
pub use charge::BatteryCharge;
pub use charge::ChargeError;
pub use device::device_text;
pub use device::spec_device;
pub use device::spec_display_name;
pub use device::spec_matches;
pub use device::Device;
pub use device::DeviceView;
pub use devices::emitted_from;
pub use devices::entry_yield;
pub use devices::lemma_entry_skips;
pub use devices::lemma_skipped_entry_keeps_rest;
pub use devices::lemma_unmatched_filter_yields_nothing;
pub use devices::Devices;
pub use devices::ManagedObject;
pub use filter::ci_matches;
pub use filter::Filter;
pub use render::json_doc;
pub use render::json_device;
pub use render::json_escape;
pub use render::json_escape_char;
pub use render::json_items;
pub use render::json_string;
pub use render::lemma_one_object_per_item;
pub use render::line_text;
pub use render::render_document;
pub use render::render_json;
pub use render::render_line;
pub use text::spec_decimal;
pub use text::spec_digit;
pub use value::assoc_lookup;
pub use value::get_string_property;
pub use value::spec_prop_error;
pub use value::spec_string_prop;
pub use value::str_eq;
pub use value::PropertyError;
pub use value::PropertyErrorKind;
pub use value::Value;
pub use value::ValueKind;

verus! {

/// Device with a charge: one fully validated, filter-passing result.
#[derive(Debug, Clone, PartialEq, Eq, PartialOrd, Ord)]
pub struct DeviceWithCharge {
    /// Device.
    pub device: Device,

    /// Battery charge.
    pub charge: BatteryCharge,
}

/// The mathematical content of a [`DeviceWithCharge`].
pub struct DeviceWithChargeView {
    /// The device's identity fields.
    pub device: DeviceView,
    /// The charge percentage.
    pub charge: u8,
}

impl View for DeviceWithCharge {
    type V = DeviceWithChargeView;

    open spec fn view(&self) -> DeviceWithChargeView {
        DeviceWithChargeView { device: self.device@, charge: self.charge@ }
    }
}

} // verus!
