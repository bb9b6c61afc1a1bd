//! Hardware-abstraction core for a small microcontroller family.
//!
//! The crate covers the two subsystems with real design content: a per-pin
//! configuration state machine (with external-interrupt routing) and a
//! clock-tree synthesizer. Both work against a register file modeled as
//! plain data, so every bit-level encoding the hardware demands is stated
//! in a contract and proved.

pub mod gpio;
pub mod rcc;
pub mod regs;
