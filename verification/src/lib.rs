//! Verified core of a diagnostic that samples one status register of an
//! ASMedia USB host controller at high frequency.
//!
//! The library holds the device-capability registry, the access-mode
//! selection logic, the register-access support for the two transports
//! (PCI configuration space and a memory-mapped BAR window), the reset
//! sequence, and the timed sampling loop.  File discovery, sysfs I/O and
//! console output live outside the library and hand it plain values.

pub mod controller;
pub mod engine;
pub mod errors;
pub mod hex;
pub mod registry;
pub mod selector;
pub mod transport;
