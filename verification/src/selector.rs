//! Access-mode selection.
//!
//! Given the capability record of the device and whether a kernel driver is
//! currently bound, exactly one of three outcomes is chosen: the
//! configuration-space transport, the memory-mapped transport, or a fatal
//! rejection.  Configuration-space access is preferred whenever a driver is
//! bound, regardless of memory-mapped capability, because concurrent driver
//! and memory-mapped access cannot be guaranteed correct.

use crate::errors::TraceError;
use crate::registry::DeviceInfo;
use vstd::prelude::*;

verus! {

/// The two register transports a device may expose.
#[derive(Clone, Copy, Debug, PartialEq, Eq, Structural)]
pub enum AccessMode {
    /// Byte-offset reads and writes over the configuration-space resource.
    ConfigSpace,
    /// Read-only half-word reads over the mapped BAR window.
    MemoryMapped,
}

/// The decision table over the three boolean inputs.  It is total: every
/// combination yields exactly one outcome.
pub open spec fn spec_select(has_config: bool, has_mmio: bool, driver_bound: bool) -> Result<
    AccessMode,
    TraceError,
> {
    if !has_config && !has_mmio {
        Err(TraceError::UnsupportedDevice)
    } else if driver_bound && !has_config {
        Err(TraceError::BlockedByDriver)
    } else if driver_bound || !has_mmio {
        Ok(AccessMode::ConfigSpace)
    } else {
        Ok(AccessMode::MemoryMapped)
    }
}

/// Picks the transport for the device, or rejects it.
///
/// A device with neither capability is unsupported.  A bound driver blocks
/// the device unless configuration-space fallback exists.  Otherwise the
/// configuration-space transport is taken when a driver is bound or when the
/// device has no memory-mapped capability, and the memory-mapped transport
/// in every remaining case.
pub fn select_access_mode(info: &DeviceInfo, driver_bound: bool) -> (mode: Result<
    AccessMode,
    TraceError,
>)
    ensures
        mode == spec_select(info.has_config, info.has_mmio, driver_bound),
{
    if !info.has_config && !info.has_mmio {
        Err(TraceError::UnsupportedDevice)
    } else if driver_bound && !info.has_config {
        Err(TraceError::BlockedByDriver)
    } else if driver_bound || !info.has_mmio {
        Ok(AccessMode::ConfigSpace)
    } else {
        Ok(AccessMode::MemoryMapped)
    }
}

/// The selection is a total function of the three booleans, and its value
/// on every one of the eight combinations is the one the decision table
/// records: both rejection rows, the three configuration-space rows, and
/// the three memory-mapped rows.
pub proof fn lemma_selection_total(has_config: bool, has_mmio: bool, driver_bound: bool)
    ensures
        (!has_config && !has_mmio) ==> spec_select(has_config, has_mmio, driver_bound) == Err::<
            AccessMode,
            TraceError,
        >(TraceError::UnsupportedDevice),
        ((has_config || has_mmio) && driver_bound && !has_config) ==> spec_select(
            has_config,
            has_mmio,
            driver_bound,
        ) == Err::<AccessMode, TraceError>(TraceError::BlockedByDriver),
        (has_config && (driver_bound || !has_mmio)) ==> spec_select(
            has_config,
            has_mmio,
            driver_bound,
        ) == Ok::<AccessMode, TraceError>(AccessMode::ConfigSpace),
        (has_mmio && !driver_bound) ==> spec_select(has_config, has_mmio, driver_bound) == Ok::<
            AccessMode,
            TraceError,
        >(AccessMode::MemoryMapped),
{
}

/// Whether a driver remains bound after the startup unbind step: a driver
/// is bound exactly when its control node was present and no unbind was
/// requested.  (A requested unbind that fails is fatal before this point.)
pub fn driver_bound_after_unbind(node_present: bool, unbind_requested: bool) -> (bound: bool)
    ensures
        bound == (node_present && !unbind_requested),
{
    node_present && !unbind_requested
}

} // verus!
