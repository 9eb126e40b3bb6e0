//! Device discovery: picking the one attached HID interface that carries the
//! sensor out of an enumerated device list.

use vstd::prelude::*;

verus! {

/// The triple that identifies one HID interface. The same shape describes
/// both the fixed identity the bridge looks for and one entry of an
/// enumerated device list.
#[derive(Clone, Copy, Debug, PartialEq, Eq, Structural)]
pub struct DeviceIdentity {
    pub vendor_id: u16,
    pub product_id: u16,
    pub interface_number: i32,
}

/// Whether an enumerated entry carries the identity the bridge looks for.
pub open spec fn identity_matches(entry: DeviceIdentity, target: DeviceIdentity) -> bool {
    entry == target
}

/// The fixed identity of the supported sensor: vendor 0x1A86, product
/// 0xE025, HID interface index 1.
pub fn sensor_identity() -> (id: DeviceIdentity)
    ensures
        id.vendor_id == 0x1a86,
        id.product_id == 0xe025,
        id.interface_number == 1,
{
    DeviceIdentity { vendor_id: 0x1a86, product_id: 0xe025, interface_number: 1 }
}

/// Scans an enumerated device list for the target identity and returns the
/// index of the first match in enumeration order. Later duplicates are
/// ignored, never an error; `None` means no attached device matched.
pub fn find_device(devices: &Vec<DeviceIdentity>, target: &DeviceIdentity) -> (r: Option<usize>)
    ensures
        match r {
            Some(i) => i < devices@.len() && identity_matches(devices@[i as int], *target)
                && (forall|j: int|
                0 <= j < i ==> !identity_matches(devices@[j], *target)),
            None => forall|j: int|
                0 <= j < devices@.len() ==> !identity_matches(devices@[j], *target),
        },
{
    let mut i: usize = 0;
    while i < devices.len()
        invariant
            i <= devices@.len(),
            forall|j: int| 0 <= j < i ==> !identity_matches(devices@[j], *target),
        decreases devices@.len() - i,
    {
        let entry = devices[i];
        if entry.vendor_id == target.vendor_id && entry.product_id == target.product_id
            && entry.interface_number == target.interface_number {
            return Some(i);
        }
        i = i + 1;
    }
    None
}

} // verus!
