//! Hardware abstraction layer for a KW41Z-class microcontroller, centred on
//! the boot-time clock bring-up sequence.
//!
//! The clock-generation logic lives in [`clock`]; it drives a register-level
//! model of the three functional blocks involved (the radio-subsystem
//! oscillator controller, the clock-divider/system-options block, and the
//! multipurpose clock generator), defined in [`regs`]. Type-state markers for
//! pin configuration live in [`gpio`].

pub mod clock;
pub mod gpio;
pub mod regs;
