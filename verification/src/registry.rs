//! Device-capability registry.
//!
//! A fixed compiled-in table maps a (vendor id, device id) pair to the
//! capability record of that chip revision: its marketing name and which of
//! the two register transports are valid for status-register access.  The
//! table is hard-coded because the valid transports vary by silicon revision
//! and cannot be probed safely at runtime.  A pair absent from the table
//! yields the "Unknown" record with both capabilities off.

use vstd::prelude::*;

verus! {

/// Capability record of one chip revision.
#[derive(Clone, Debug)]
pub struct DeviceInfo {
    /// Marketing name of the chip, or "Unknown".
    pub name: String,
    /// Whether the status register may be read over PCI configuration space.
    pub has_config: bool,
    /// Whether the status register may be read over the memory-mapped window.
    pub has_mmio: bool,
}

impl DeviceInfo {
    /// Builds a record from its three fields.
    pub fn new(name: &str, has_config: bool, has_mmio: bool) -> (info: DeviceInfo)
        ensures
            info.name@ == name@,
            info.has_config == has_config,
            info.has_mmio == has_mmio,
    {
        DeviceInfo { name: String::from_str(name), has_config, has_mmio }
    }
}

/// The vendor id shared by every chip in the table.
pub const ASMEDIA_VENDOR_ID: u16 = 0x1b21;

/// Whether the registry holds a record for the pair.
pub open spec fn spec_registry_has(vendor_id: u16, device_id: u16) -> bool {
    vendor_id == ASMEDIA_VENDOR_ID && (device_id == 0x1042 || device_id == 0x1142
        || device_id == 0x1242 || device_id == 0x2142 || device_id == 0x3242)
}

/// The name the registry records for the pair, "Unknown" on a miss.
pub open spec fn spec_device_name(vendor_id: u16, device_id: u16) -> Seq<char> {
    if vendor_id == ASMEDIA_VENDOR_ID {
        if device_id == 0x1042 {
            "ASM1042"@
        } else if device_id == 0x1142 {
            "ASM1042A"@
        } else if device_id == 0x1242 {
            "ASM1142"@
        } else if device_id == 0x2142 {
            "ASM2142/ASM3142"@
        } else if device_id == 0x3242 {
            "ASM3242"@
        } else {
            "Unknown"@
        }
    } else {
        "Unknown"@
    }
}

/// Whether the registry records configuration-space capability for the pair;
/// false on a miss.
pub open spec fn spec_has_config(vendor_id: u16, device_id: u16) -> bool {
    vendor_id == ASMEDIA_VENDOR_ID && (device_id == 0x1142 || device_id == 0x1242)
}

/// Whether the registry records memory-mapped capability for the pair;
/// false on a miss.
pub open spec fn spec_has_mmio(vendor_id: u16, device_id: u16) -> bool {
    vendor_id == ASMEDIA_VENDOR_ID && (device_id == 0x1142 || device_id == 0x1242
        || device_id == 0x2142 || device_id == 0x3242)
}

/// Looks the pair up in the table.  Never fails: a pair absent from the
/// table yields the "Unknown" record with both capabilities off, and such a
/// record must not proceed to sampling.
pub fn lookup(vendor_id: u16, device_id: u16) -> (info: DeviceInfo)
    ensures
        info.name@ == spec_device_name(vendor_id, device_id),
        info.has_config == spec_has_config(vendor_id, device_id),
        info.has_mmio == spec_has_mmio(vendor_id, device_id),
{
    if vendor_id == ASMEDIA_VENDOR_ID {
        if device_id == 0x1042 {
            DeviceInfo::new("ASM1042", false, false)
        } else if device_id == 0x1142 {
            DeviceInfo::new("ASM1042A", true, true)
        } else if device_id == 0x1242 {
            DeviceInfo::new("ASM1142", true, true)
        } else if device_id == 0x2142 {
            DeviceInfo::new("ASM2142/ASM3142", false, true)
        } else if device_id == 0x3242 {
            DeviceInfo::new("ASM3242", false, true)
        } else {
            DeviceInfo::new("Unknown", false, false)
        }
    } else {
        DeviceInfo::new("Unknown", false, false)
    }
}

} // verus!
