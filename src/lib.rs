//! Interrupt-controller driver model, IRQ dispatch core and register
//! programming for the leaf devices of an ARM64 platform.
//!
//! Everything that touches hardware is expressed as plain values: register
//! writes and controller commands that the platform glue performs, and the
//! values it read back handed in as arguments.

pub mod intid;
pub mod gic;
pub mod mmio;
pub mod uart;
pub mod watchdog;
pub mod gpio;
