//! General purpose input / output: type-state markers for pin
//! configuration.
//!
//! Each pin's configuration is encoded in its type, so a pin can only be
//! used in a mode it was configured for; transition operations consume the
//! old state and produce the new one. The pin implementations themselves
//! perform memory-mapped register access and live outside this library.

use core::marker::PhantomData;
use vstd::prelude::*;

verus! {

/// Extension trait to split a GPIO peripheral into independent pins and
/// registers.
pub trait GpioExt {
    /// The parts to split the GPIO into.
    type Parts;

    /// Splits the GPIO block into independent pins and registers.
    fn split(self) -> Self::Parts;
}

/// Alternate function 0 (type state).
pub struct AF0;

/// Alternate function 1 (type state).
pub struct AF1;

/// Alternate function 2 (type state).
pub struct AF2;

/// Alternate function 3 (type state).
pub struct AF3;

/// Alternate function 4 (type state).
pub struct AF4;

/// Alternate function 5 (type state).
pub struct AF5;

/// Alternate function 6 (type state).
pub struct AF6;

/// Alternate function 7 (type state).
pub struct AF7;

/// Alternate function mode (type state).
pub struct Alternate<MODE> {
    _mode: PhantomData<MODE>,
}

/// Input mode (type state).
pub struct Input<MODE> {
    _mode: PhantomData<MODE>,
}

/// Floating input (type state).
pub struct Floating;

/// Pulled down input (type state).
pub struct PullDown;

/// Pulled up input (type state).
pub struct PullUp;

/// Output mode (type state).
pub struct Output<MODE> {
    _mode: PhantomData<MODE>,
}

/// Push pull output (type state).
pub struct PushPull;

} // verus!
