//! Pin typestates: which configuration a pin token is in is carried by its
//! type, so that a function can demand correctly-routed pins at compile
//! time.
//!
//! Driving the pin-configuration registers is the register front end's job;
//! it hands out these tokens once a line is configured.

pub mod partially_erased_pin;

use core::marker::PhantomData;

use vstd::prelude::*;

use crate::sealed::Sealed;

verus! {

/// Port A's number in a pin's type.
pub const PORT_A: u8 = 0;

/// Port B's number in a pin's type.
pub const PORT_B: u8 = 1;

/// Port C's number in a pin's type.
pub const PORT_C: u8 = 2;

/// Port D's number in a pin's type.
pub const PORT_D: u8 = 3;

/// Port E's number in a pin's type.
pub const PORT_E: u8 = 4;

/// Port F's number in a pin's type.
pub const PORT_F: u8 = 5;

/// Port G's number in a pin's type.
pub const PORT_G: u8 = 6;

/// Port H's number in a pin's type.
pub const PORT_H: u8 = 7;

/// Port I's number in a pin's type.
pub const PORT_I: u8 = 8;

/// A pin configuration.
pub trait PinMode: Sealed {

}

/// An input pull configuration.
pub trait InputMode: Sealed {

}

/// An output driver configuration.
pub trait OutputMode: Sealed {

}

/// A pin as it comes out of reset.
pub struct NotConfigured;

/// An input pin with the given pull.
pub struct Input<MODE: InputMode> {
    _marker: PhantomData<MODE>,
}

/// No pull resistor.
pub struct Floating;

/// Pulled up.
pub struct PullUp;

/// Pulled down.
pub struct PullDown;

/// Driven both high and low.
pub struct PushPull;

/// Driven low only, released high.
pub struct OpenDrain;

/// An output pin with the given driver.
pub struct Output<MODE: OutputMode> {
    _marker: PhantomData<MODE>,
}

/// A pin routed to the numbered alternate function, with the given driver.
pub struct Alternate<MODE: OutputMode, const ALT_MODE: u8> {
    _marker: PhantomData<MODE>,
}

impl Sealed for NotConfigured {

}

impl PinMode for NotConfigured {

}

impl Sealed for Floating {

}

impl InputMode for Floating {

}

impl Sealed for PullUp {

}

impl InputMode for PullUp {

}

impl Sealed for PullDown {

}

impl InputMode for PullDown {

}

impl Sealed for PushPull {

}

impl OutputMode for PushPull {

}

impl Sealed for OpenDrain {

}

impl OutputMode for OpenDrain {

}

impl<MODE: InputMode> Sealed for Input<MODE> {

}

impl<MODE: InputMode> PinMode for Input<MODE> {

}

impl<MODE: OutputMode> Sealed for Output<MODE> {

}

impl<MODE: OutputMode> PinMode for Output<MODE> {

}

impl<MODE: OutputMode, const ALT_MODE: u8> Sealed for Alternate<MODE, ALT_MODE> {

}

impl<MODE: OutputMode, const ALT_MODE: u8> PinMode for Alternate<MODE, ALT_MODE> {

}

/// The token for one pin: port and index in the type, configuration as a
/// typestate. Holding one means the line is in the named configuration.
pub struct Pin<MODE: PinMode, const PORT: u8, const INDEX: u8> {
    _marker: PhantomData<MODE>,
}

impl<MODE: PinMode, const PORT: u8, const INDEX: u8> Pin<MODE, PORT, INDEX> {
    /// Materialise the token; the register front end calls this once it has
    /// put the line into the named configuration.
    pub fn materialize() -> (r: Pin<MODE, PORT, INDEX>) {
        Pin { _marker: PhantomData }
    }
}

/// Splits a port peripheral into its pin tokens.
pub trait GpioExtension {
    /// The port's pins, one token each.
    type Parts;

    /// Consume the port peripheral and hand out its pin tokens.
    fn split(self) -> Self::Parts;
}

} // verus!
