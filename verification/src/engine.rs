//! Timed sampling loop and sample buffer.
//!
//! A run performs exactly `count` sequential status reads, appending each
//! raw value to a fixed-capacity buffer in call order, between two monotonic
//! timestamps.  No delay is imposed between reads: the loop runs at the
//! transport's native call latency.  The loop body allocates nothing: the
//! buffer's capacity is reserved up front.  A partial buffer is never
//! surfaced as complete: the configuration-space transport, whose reads go
//! through outside I/O, drives the same buffer from outside the library and
//! aborts the whole run on the first failed read.

use crate::transport::MemoryMappedAccessor;
use vstd::prelude::*;

verus! {

#[verifier::external_type_specification]
#[verifier::external_body]
pub struct ExInstant(std::time::Instant);

/// Relies on `std::time::Instant::now`: an opaque monotonic timestamp.
/// Nothing is promised of the value: it depends on when the call runs.
#[verifier::external_body]
fn monotonic_now() -> std::time::Instant {
    std::time::Instant::now()
}

/// Relies on `std::time::Instant::elapsed`: the time since `start`, as an
/// opaque duration.  Nothing is promised of the value.
#[verifier::external_body]
fn elapsed_since(start: &std::time::Instant) -> std::time::Duration {
    start.elapsed()
}

/// Relies on `std::time::Duration::as_micros`: the duration in whole
/// microseconds.  Nothing is promised of the value.
#[verifier::external_body]
fn duration_as_micros(d: &std::time::Duration) -> u128 {
    d.as_micros()
}

/// Ordered buffer of raw 32-bit register reads, with a capacity fixed at
/// the requested sample count.  Append-only: samples enter in call order
/// and are never removed or reordered.
pub struct SampleBuffer {
    samples: Vec<u32>,
    target: usize,
}

impl SampleBuffer {
    /// The samples appended so far, in append order.
    pub closed spec fn view(&self) -> Seq<u32> {
        self.samples@
    }

    /// The fixed capacity: the requested sample count.
    pub closed spec fn spec_target(&self) -> nat {
        self.target as nat
    }

    /// Makes an empty buffer for exactly `count` samples, with its space
    /// reserved up front so that appends allocate nothing.
    pub fn new(count: usize) -> (buf: SampleBuffer)
        ensures
            buf@ == Seq::<u32>::empty(),
            buf.spec_target() == count,
    {
        SampleBuffer { samples: Vec::with_capacity(count), target: count }
    }

    /// Appends one raw register value.  The buffer must not yet be full:
    /// a run never reads more than the requested count.
    pub fn push(&mut self, value: u32)
        requires
            old(self)@.len() < old(self).spec_target(),
        ensures
            final(self)@ == old(self)@.push(value),
            final(self).spec_target() == old(self).spec_target(),
    {
        self.samples.push(value);
    }

    /// How many samples are buffered.
    pub fn len(&self) -> (n: usize)
        ensures
            n == self@.len(),
    {
        self.samples.len()
    }

    /// The requested sample count.
    pub fn target(&self) -> (n: usize)
        ensures
            n == self.spec_target(),
    {
        self.target
    }

    /// Whether the buffer holds exactly the requested count, and the run
    /// that fills it may surface it as complete.
    pub fn is_complete(&self) -> (complete: bool)
        ensures
            complete <==> self@.len() == self.spec_target(),
    {
        self.samples.len() == self.target
    }

    /// Borrows the samples, in append order.
    pub fn samples(&self) -> (samples: &Vec<u32>)
        ensures
            samples@ == self@,
    {
        &self.samples
    }
}

/// Runs the sampling loop on the memory-mapped transport: records a
/// monotonic start timestamp, performs exactly `count` sequential status
/// reads, appending each raw value in call order, and returns the full
/// buffer together with the elapsed wall-clock time in microseconds.  This
/// transport's reads cannot fail once mapped, so the run always completes.
pub fn run(accessor: &MemoryMappedAccessor, count: usize) -> (r: (SampleBuffer, u128))
    requires
        accessor.wf(),
    ensures
        r.0@.len() == count,
        r.0.spec_target() == count,
        forall|i: int| 0 <= i < count ==> r.0@[i] <= 0xffff,
{
    let start = monotonic_now();
    let mut buf = SampleBuffer::new(count);
    let mut taken: usize = 0;
    while taken < count
        invariant
            taken <= count,
            buf@.len() == taken,
            buf.spec_target() == count,
            accessor.wf(),
            forall|i: int| 0 <= i < taken ==> buf@[i] <= 0xffff,
        decreases count - taken,
    {
        let value = accessor.read_status();
        buf.push(value);
        taken = taken + 1;
    }
    let duration = elapsed_since(&start);
    let elapsed_micros = duration_as_micros(&duration);
    (buf, elapsed_micros)
}

/// Throughput in whole samples per second.  The computation is invalid when
/// the elapsed time is zero and is skipped rather than dividing by zero.
pub fn throughput(sample_count: usize, elapsed_micros: u128) -> (rate: Option<u128>)
    ensures
        elapsed_micros == 0 ==> rate is None,
        elapsed_micros != 0 ==> rate is Some && rate->Some_0 == (sample_count * 1_000_000)
            / (elapsed_micros as int),
{
    if elapsed_micros == 0 {
        None
    } else {
        Some((sample_count as u128 * 1_000_000) / elapsed_micros)
    }
}

} // verus!
