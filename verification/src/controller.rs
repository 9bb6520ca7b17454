//! Device reset sequence.
//!
//! A reset is two configuration-space writes to the reset-control register:
//! first the value with bit 31 set (assert reset), then zero (deassert).
//! Each write must fully succeed before the next is issued; a failure midway
//! is fatal, since a half-completed reset leaves the device undefined.  Only
//! the configuration-space transport can perform a reset: requesting one on
//! the read-only memory-mapped transport is rejected before any sampling.

use crate::errors::TraceError;
use crate::selector::AccessMode;
use crate::transport::RESET_CONTROL_OFFSET;
use vstd::prelude::*;

verus! {

/// The value written to the reset-control register to assert reset: bit 31
/// set, all other bits clear.
pub const RESET_ASSERT_VALUE: u32 = 0x8000_0000;

/// The value written to the reset-control register to deassert reset.
pub const RESET_DEASSERT_VALUE: u32 = 0x0000_0000;

/// One 32-bit register write over the configuration-space transport.
#[derive(Clone, Copy, Debug, PartialEq, Eq, Structural)]
pub struct RegWrite {
    /// Byte offset of the register within configuration space.
    pub offset: u16,
    /// The 32-bit value to transfer, little-endian on the wire.
    pub value: u32,
}

/// The reset sequence: exactly two writes to the reset-control register,
/// assert then deassert, in that order.
pub open spec fn spec_reset_sequence() -> Seq<RegWrite> {
    seq![
        RegWrite { offset: RESET_CONTROL_OFFSET, value: RESET_ASSERT_VALUE },
        RegWrite { offset: RESET_CONTROL_OFFSET, value: RESET_DEASSERT_VALUE },
    ]
}

/// Plans a reset on the selected transport.  On the configuration-space
/// transport the plan is exactly the two-write reset sequence; on the
/// memory-mapped transport, which cannot write, the request is rejected as
/// a precondition violation.
pub fn reset_plan(mode: AccessMode) -> (plan: Result<Vec<RegWrite>, TraceError>)
    ensures
        plan is Ok <==> mode == AccessMode::ConfigSpace,
        plan is Ok ==> plan->Ok_0@ == spec_reset_sequence(),
        plan is Err ==> plan->Err_0 == TraceError::PreconditionViolation,
{
    match mode {
        AccessMode::ConfigSpace => {
            let mut writes: Vec<RegWrite> = Vec::new();
            writes.push(RegWrite { offset: RESET_CONTROL_OFFSET, value: RESET_ASSERT_VALUE });
            writes.push(RegWrite { offset: RESET_CONTROL_OFFSET, value: RESET_DEASSERT_VALUE });
            Ok(writes)
        },
        AccessMode::MemoryMapped => Err(TraceError::PreconditionViolation),
    }
}

} // verus!
