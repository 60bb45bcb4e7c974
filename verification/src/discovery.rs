//! Device selection: which of the enumerated HID devices the controller
//! opens.
//!
//! The transport's enumeration happens outside the library; it hands in the
//! identifying pairs of the attached devices as plain values, and the
//! selection rule here is verified: take the first device whose vendor and
//! product identifiers both match, and on an open failure resume the scan
//! just after it.

use vstd::prelude::*;

use crate::PID;
use crate::VID;

verus! {

/// The identifying pair of one attached HID device, as read from the
/// transport's enumeration.
#[derive(Clone, Copy, Debug, PartialEq, Eq, Structural)]
pub struct DeviceId {
    /// Vendor identifier of the device.
    pub vendor_id: u16,
    /// Product identifier of the device.
    pub product_id: u16,
}

/// True of a device this controller drives: the vendor and product
/// identifiers both match the peripheral's.
pub open spec fn is_target_device(d: DeviceId) -> bool {
    d.vendor_id == VID && d.product_id == PID
}

/// Selects the next device to try opening: the first device at or after
/// `start` whose vendor and product identifiers match, or `None` when no
/// device from `start` on matches. With `start` zero this is the device a
/// fresh scan opens; after a failed open the scan resumes just past the
/// failing device.
pub fn first_matching_device(devices: &Vec<DeviceId>, start: usize) -> (r: Option<usize>)
    ensures
        r matches Some(i) ==> start <= i < devices@.len() && is_target_device(devices@[i as int])
            && forall|k: int| start <= k < i ==> !is_target_device(#[trigger] devices@[k]),
        r is None ==> forall|k: int|
            start <= k < devices@.len() ==> !is_target_device(#[trigger] devices@[k]),
{
    let mut i: usize = start;
    while i < devices.len()
        invariant
            start <= i,
            forall|k: int| start <= k < i ==> !is_target_device(#[trigger] devices@[k]),
        decreases devices@.len() - i,
    {
        let d = devices[i];
        if d.vendor_id == VID && d.product_id == PID {
            return Some(i);
        }
        i += 1;
    }
    None
}

} // verus!
