//! Input devices as they are listed.

use vstd::prelude::*;

verus! {

/// An input device that capture can be asked for by its id.
pub struct DeviceInfo {
    /// What selects the device.
    pub id: String,
    /// What to show of it.
    pub name: String,
    /// Whether capture without a selection uses it.
    pub is_default: bool,
}

/// A listed device by its texts.
#[verifier::ext_equal]
pub struct DeviceEntry {
    pub id: Seq<char>,
    pub name: Seq<char>,
    pub is_default: bool,
}

impl View for DeviceInfo {
    type V = DeviceEntry;

    open spec fn view(&self) -> DeviceEntry {
        DeviceEntry { id: self.id@, name: self.name@, is_default: self.is_default }
    }
}

/// The entries of a device list.
pub open spec fn entries(devices: Seq<DeviceInfo>) -> Seq<DeviceEntry> {
    devices.map_values(|device: DeviceInfo| device@)
}

/// How many entries are marked as the default.
pub open spec fn default_count(list: Seq<DeviceEntry>) -> nat
    decreases list.len(),
{
    if list.len() == 0 {
        0
    } else {
        default_count(list.drop_last()) + if list.last().is_default {
            1nat
        } else {
            0nat
        }
    }
}

/// A list shows its devices as they are: one entry for each, in order, with its own
/// id, its own name and its own mark.
pub proof fn law_entries_show_the_devices(devices: Seq<DeviceInfo>, i: int)
    requires
        0 <= i < devices.len(),
    ensures
        entries(devices).len() == devices.len(),
        entries(devices)[i].id == devices[i].id@,
        entries(devices)[i].name == devices[i].name@,
        entries(devices)[i].is_default == devices[i].is_default,
{
}

} // verus!
