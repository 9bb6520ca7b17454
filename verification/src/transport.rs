//! Register-access support for the two transports.
//!
//! The configuration-space transport moves whole 32-bit registers as exact
//! 4-byte little-endian transfers at a byte offset; the seek/read/write
//! calls themselves live outside the library, which supplies the offsets
//! and the verified byte codec.  The memory-mapped transport reads 16-bit
//! half-words straight out of a mapped BAR window and is read-only; the
//! window is held here behind a small trusted surface over `memmap`.

use crate::errors::TraceError;
use vstd::bytes::spec_u32_from_le_bytes;
use vstd::bytes::spec_u32_to_le_bytes;
use vstd::bytes::u32_from_le_bytes;
use vstd::bytes::u32_to_le_bytes;
use vstd::prelude::*;

verus! {

/// Configuration-space byte offset of the polled status register.
pub const CONFIG_STATUS_OFFSET: u16 = 0xe4;

/// Configuration-space byte offset of the reset-control register.
pub const RESET_CONTROL_OFFSET: u16 = 0xec;

/// Offset of the 16-bit status mirror inside the mapped BAR window.
pub const MMIO_STATUS_OFFSET: usize = 0x300a;

/// Decodes a 4-byte little-endian configuration-space transfer into the
/// register value it carries.
pub fn decode_register(buf: &[u8]) -> (value: u32)
    requires
        buf@.len() == 4,
    ensures
        value == spec_u32_from_le_bytes(buf@),
{
    u32_from_le_bytes(buf)
}

/// Encodes a register value as the exact 4 little-endian bytes of a
/// configuration-space transfer.
pub fn encode_register(value: u32) -> (buf: Vec<u8>)
    ensures
        buf@ == spec_u32_to_le_bytes(value),
        buf@.len() == 4,
{
    u32_to_le_bytes(value)
}

/// The fixed length of a mapped BAR window, in bytes.  It is set when the
/// mapping is made and never changes while the mapping lives.
pub uninterp spec fn window_len(window: memmap::MmapMut) -> nat;

#[verifier::external_type_specification]
#[verifier::external_body]
pub struct ExMmapMut(memmap::MmapMut);

/// Relies on `<memmap::MmapMut as core::ops::Deref>::deref`: the mapping
/// dereferences to one byte slice covering the whole window, so the slice's
/// length is the window's fixed length.
#[verifier::external_body]
fn mmap_len(window: &memmap::MmapMut) -> (n: usize)
    ensures
        n == window_len(*window),
{
    window.len()
}

/// Relies on `<memmap::MmapMut as core::ops::Deref>::deref`: the two bytes
/// at `offset` lie inside the window, so indexing cannot panic.  Nothing is
/// promised of the value read: the window may mirror live device registers,
/// which change between reads.
#[verifier::external_body]
fn mmap_read_u16_le(window: &memmap::MmapMut, offset: usize) -> (value: u16)
    requires
        offset + 2 <= window_len(*window),
{
    u16::from_le_bytes([window[offset], window[offset + 1]])
}

/// The read-only memory-mapped transport: 16-bit little-endian reads out of
/// a mapped BAR window that is large enough to hold the status mirror.
pub struct MemoryMappedAccessor {
    window: memmap::MmapMut,
}

impl MemoryMappedAccessor {
    /// The window length, as the mapping fixed it.
    pub closed spec fn spec_len(&self) -> nat {
        window_len(self.window)
    }

    /// The accessor is usable: the window reaches past the status mirror.
    pub open spec fn wf(&self) -> bool {
        self.spec_len() >= MMIO_STATUS_OFFSET + 2
    }

    /// Wraps a mapped BAR window, rejecting one too small to hold the
    /// status mirror.
    pub fn new(window: memmap::MmapMut) -> (r: Result<MemoryMappedAccessor, TraceError>)
        ensures
            r is Ok <==> window_len(window) >= MMIO_STATUS_OFFSET + 2,
            r is Ok ==> r->Ok_0.wf(),
            r is Err ==> r->Err_0 == TraceError::ResourceOpenFailure,
    {
        let n = mmap_len(&window);
        if n >= MMIO_STATUS_OFFSET + 2 {
            Ok(MemoryMappedAccessor { window })
        } else {
            Err(TraceError::ResourceOpenFailure)
        }
    }

    /// The window length in bytes.
    pub fn len(&self) -> (n: usize)
        ensures
            n == self.spec_len(),
    {
        mmap_len(&self.window)
    }

    /// Reads the 16-bit little-endian half-word at `offset` in the window.
    /// This transport cannot fail once mapped, but the value itself is a
    /// live register read and is not pinned by any contract.
    pub fn read_register16(&self, offset: usize) -> (value: u16)
        requires
            offset + 2 <= self.spec_len(),
    {
        mmap_read_u16_le(&self.window, offset)
    }

    /// Reads the half-word at `offset` if it lies inside the window.
    pub fn try_read_register16(&self, offset: usize) -> (value: Option<u16>)
        ensures
            value is Some <==> offset + 2 <= self.spec_len(),
    {
        let n = mmap_len(&self.window);
        if n >= 2 && offset <= n - 2 {
            Some(mmap_read_u16_le(&self.window, offset))
        } else {
            None
        }
    }

    /// Reads the status mirror and zero-extends it to 32 bits, so both
    /// transports report status values of one width.
    pub fn read_status(&self) -> (value: u32)
        requires
            self.wf(),
        ensures
            value <= 0xffff,
    {
        let half: u16 = mmap_read_u16_le(&self.window, MMIO_STATUS_OFFSET);
        half as u32
    }
}

} // verus!
