//! The lazy, filtering walk over a managed-object collection.

use vstd::prelude::*;

use crate::charge::spec_charge;
use crate::charge::BatteryCharge;
use crate::device::spec_device;
use crate::device::spec_matches;
use crate::device::Device;
use crate::filter::Filter;
use crate::value::assoc_get;
use crate::value::assoc_lookup;
use crate::value::Value;
use crate::DeviceWithCharge;
use crate::DeviceWithChargeView;

verus! {

/// One entry of the managed-object collection: a path-like object
/// identifier together with the property map of each interface the object
/// implements.
#[derive(Debug)]
pub struct ManagedObject {
    /// The object identifier.
    pub path: String,
    /// Interface name to property map.
    pub interfaces: Vec<(String, Vec<(String, Value)>)>,
}

/// What one managed object contributes to the walk: a validated device and
/// charge when the object carries the device interface with valid identity
/// fields, passes the filter (when one is given), and carries the battery
/// interface with a valid percentage; nothing otherwise.
pub open spec fn entry_yield(obj: ManagedObject, filter: Option<Seq<char>>) -> Option<
    DeviceWithChargeView,
> {
    match assoc_lookup(obj.interfaces@, "org.bluez.Device1"@) {
        None => None,
        Some(device_bag) => match spec_device(device_bag@) {
            None => None,
            Some(d) => if filter matches Some(p) && !spec_matches(d, p) {
                None
            } else {
                match assoc_lookup(obj.interfaces@, "org.bluez.Battery1"@) {
                    None => None,
                    Some(battery_bag) => match spec_charge(battery_bag@) {
                        None => None,
                        Some(c) => Some(DeviceWithChargeView { device: d, charge: c }),
                    },
                }
            },
        },
    }
}

/// The sequence of values the walk emits from position `i` on: each entry's
/// [`entry_yield`], in collection order, with the silent entries left out.
pub open spec fn emitted_from(
    objects: Seq<ManagedObject>,
    filter: Option<Seq<char>>,
    i: int,
) -> Seq<DeviceWithChargeView>
    decreases objects.len() - i,
    when 0 <= i <= objects.len()
{
    if i >= objects.len() {
        Seq::empty()
    } else {
        match entry_yield(objects[i], filter) {
            Some(v) => seq![v] + emitted_from(objects, filter, i + 1),
            None => emitted_from(objects, filter, i + 1),
        }
    }
}

/// An iterator over devices.
#[derive(Debug)]
pub struct Devices {
    objects: Vec<ManagedObject>,
    filter: Option<Filter>,
    pos: usize,
}

impl Devices {
    /// The managed-object collection being walked.
    pub closed spec fn objects_view(&self) -> Seq<ManagedObject> {
        self.objects@
    }

    /// The filter pattern, when one was given.
    pub closed spec fn filter_view(&self) -> Option<Seq<char>> {
        match self.filter {
            Some(f) => Some(f.pattern_view()),
            None => None,
        }
    }

    /// The cursor position: the number of entries already visited.
    pub closed spec fn pos_view(&self) -> int {
        self.pos as int
    }

    /// The cursor never runs past the collection.
    pub open spec fn wf(&self) -> bool {
        0 <= self.pos_view() <= self.objects_view().len()
    }

    /// What is still to be emitted from the current position on.
    pub open spec fn remaining(&self) -> Seq<DeviceWithChargeView> {
        emitted_from(self.objects_view(), self.filter_view(), self.pos_view())
    }

    /// Creates an iterator over Bluetooth devices with a battery from a
    /// managed-object collection, positioned at its start.
    pub fn new(objects: Vec<ManagedObject>, filter: Option<Filter>) -> (r: Devices)
        ensures
            r.wf(),
            r.objects_view() == objects@,
            r.filter_view() == match filter {
                Some(f) => Some(f.pattern_view()),
                None => None,
            },
            r.pos_view() == 0,
    {
        Devices { objects, filter, pos: 0 }
    }

    /// Advances to the next emitted value.
    ///
    /// Skips every entry without the device interface, with a malformed
    /// device, failing the filter, without the battery interface, or with a
    /// malformed charge; a skipped entry never stops the walk. Returns
    /// `None` exactly when nothing was left to emit, with the cursor at the
    /// end.
    pub fn next(&mut self) -> (r: Option<DeviceWithCharge>)
        requires
            old(self).wf(),
        ensures
            final(self).wf(),
            final(self).objects_view() == old(self).objects_view(),
            final(self).filter_view() == old(self).filter_view(),
            old(self).pos_view() <= final(self).pos_view(),
            match r {
                None => {
                    &&& old(self).remaining() == Seq::<DeviceWithChargeView>::empty()
                    &&& final(self).pos_view() == old(self).objects_view().len()
                },
                Some(dwc) => old(self).remaining() == seq![dwc@] + final(self).remaining(),
            },
    {
        loop
            invariant
                self.wf(),
                self.objects_view() == old(self).objects_view(),
                self.filter_view() == old(self).filter_view(),
                old(self).pos_view() <= self.pos_view(),
                old(self).remaining() == self.remaining(),
            decreases self.objects_view().len() - self.pos_view(),
        {
            if self.pos >= self.objects.len() {
                return None;
            }
            let ghost pos = self.pos as int;
            let ghost obj = self.objects@[pos];
            let object = &self.objects[self.pos];
            let device = match assoc_get(&object.interfaces, "org.bluez.Device1") {
                None => {
                    proof {
                        assert(entry_yield(obj, self.filter_view()) is None);
                    }
                    self.pos = self.pos + 1;
                    continue;
                },
                Some(device_bag) => match Device::new(device_bag) {
                    Err(_) => {
                        proof {
                            assert(entry_yield(obj, self.filter_view()) is None);
                        }
                        self.pos = self.pos + 1;
                        continue;
                    },
                    Ok(device) => device,
                },
            };
            if let Some(filter) = &self.filter {
                if !device.matches(filter) {
                    proof {
                        assert(entry_yield(obj, self.filter_view()) is None);
                    }
                    self.pos = self.pos + 1;
                    continue;
                }
            }
            let charge = match assoc_get(&object.interfaces, "org.bluez.Battery1") {
                None => {
                    proof {
                        assert(entry_yield(obj, self.filter_view()) is None);
                    }
                    self.pos = self.pos + 1;
                    continue;
                },
                Some(battery_bag) => match BatteryCharge::new(battery_bag) {
                    Err(_) => {
                        proof {
                            assert(entry_yield(obj, self.filter_view()) is None);
                        }
                        self.pos = self.pos + 1;
                        continue;
                    },
                    Ok(charge) => charge,
                },
            };
            let result = DeviceWithCharge { device, charge };
            proof {
                assert(entry_yield(obj, self.filter_view()) == Some(result@));
            }
            self.pos = self.pos + 1;
            return Some(result);
        }
    }

    /// Walks the rest of the collection and gathers every emitted value, in
    /// order, leaving the cursor at the end.
    pub fn collect_all(&mut self) -> (r: Vec<DeviceWithCharge>)
        requires
            old(self).wf(),
        ensures
            final(self).wf(),
            final(self).objects_view() == old(self).objects_view(),
            final(self).filter_view() == old(self).filter_view(),
            r@.map_values(|d: DeviceWithCharge| d@) == old(self).remaining(),
            final(self).remaining() == Seq::<DeviceWithChargeView>::empty(),
    {
        let mut out: Vec<DeviceWithCharge> = Vec::new();
        loop
            invariant
                self.wf(),
                self.objects_view() == old(self).objects_view(),
                self.filter_view() == old(self).filter_view(),
                out@.map_values(|d: DeviceWithCharge| d@) + self.remaining() == old(
                    self,
                ).remaining(),
            decreases self.remaining().len(),
        {
            match self.next() {
                Some(d) => {
                    out.push(d);
                    proof {
                        assert(out@.map_values(|d: DeviceWithCharge| d@) + self.remaining()
                            =~= old(self).remaining());
                    }
                },
                None => {
                    proof {
                        assert(out@.map_values(|d: DeviceWithCharge| d@) + self.remaining()
                            =~= out@.map_values(|d: DeviceWithCharge| d@));
                    }
                    return out;
                },
            }
        }
    }
}

/// An entry without the device interface, or without the battery interface,
/// emits nothing, whatever else it holds.
pub proof fn lemma_entry_skips(obj: ManagedObject, filter: Option<Seq<char>>)
    ensures
        assoc_lookup(obj.interfaces@, "org.bluez.Device1"@) is None ==> entry_yield(
            obj,
            filter,
        ) is None,
        assoc_lookup(obj.interfaces@, "org.bluez.Battery1"@) is None ==> entry_yield(
            obj,
            filter,
        ) is None,
{
}

/// A silent entry leaves the rest of the walk exactly as it was: skipping
/// never halts enumeration of the subsequent entries.
pub proof fn lemma_skipped_entry_keeps_rest(
    objects: Seq<ManagedObject>,
    filter: Option<Seq<char>>,
    i: int,
)
    requires
        0 <= i < objects.len(),
        entry_yield(objects[i], filter) is None,
    ensures
        emitted_from(objects, filter, i) == emitted_from(objects, filter, i + 1),
{
}

/// A filter that matches no device in the collection yields an empty
/// sequence, not an error.
pub proof fn lemma_unmatched_filter_yields_nothing(
    objects: Seq<ManagedObject>,
    pattern: Seq<char>,
    i: int,
)
    requires
        0 <= i <= objects.len(),
        forall|j: int|
            i <= j < objects.len() ==> (match assoc_lookup(
                #[trigger] objects[j].interfaces@,
                "org.bluez.Device1"@,
            ) {
                Some(device_bag) => match spec_device(device_bag@) {
                    Some(d) => !spec_matches(d, pattern),
                    None => true,
                },
                None => true,
            }),
    ensures
        emitted_from(objects, Some(pattern), i) == Seq::<DeviceWithChargeView>::empty(),
    decreases objects.len() - i,
{
    if i < objects.len() {
        assert(entry_yield(objects[i], Some(pattern)) is None);
        lemma_unmatched_filter_yields_nothing(objects, pattern, i + 1);
    }
}

} // verus!
