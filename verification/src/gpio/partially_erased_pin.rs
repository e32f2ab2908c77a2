//! A pin token whose index is a runtime value: the port stays in the type,
//! the pin number moves into a field.

use core::marker::PhantomData;

use vstd::prelude::*;

use crate::gpio::{Pin, PinMode};

verus! {

/// A pin of the typed port, identified by a runtime index.
pub struct PartiallyErasedPin<MODE: PinMode, const PORT: u8> {
    index: u8,
    _marker: PhantomData<MODE>,
}

impl<MODE: PinMode, const PORT: u8> PartiallyErasedPin<MODE, PORT> {
    /// The erased pin's index within its port.
    pub closed spec fn spec_index(&self) -> u8 {
        self.index
    }

    /// The erased pin's index within its port.
    #[verifier::when_used_as_spec(spec_index)]
    pub fn index(&self) -> (r: u8)
        ensures
            r == self.spec_index(),
    {
        self.index
    }
}

impl<MODE: PinMode, const PORT: u8, const INDEX: u8> From<Pin<MODE, PORT, INDEX>>
    for PartiallyErasedPin<MODE, PORT> {
    /// Erase a pin's index into a field, keeping its port and mode.
    fn from(pin: Pin<MODE, PORT, INDEX>) -> (r: PartiallyErasedPin<MODE, PORT>)
        ensures
            r.spec_index() == INDEX,
    {
        let _ = pin;
        PartiallyErasedPin { index: INDEX, _marker: PhantomData }
    }
}

impl<MODE: PinMode, const PORT: u8, const INDEX: u8> vstd::std_specs::convert::FromSpecImpl<Pin<MODE, PORT, INDEX>>
    for PartiallyErasedPin<MODE, PORT> {
    open spec fn obeys_from_spec() -> bool {
        true
    }

    closed spec fn from_spec(pin: Pin<MODE, PORT, INDEX>) -> PartiallyErasedPin<MODE, PORT> {
        PartiallyErasedPin { index: INDEX, _marker: PhantomData }
    }
}

} // verus!
