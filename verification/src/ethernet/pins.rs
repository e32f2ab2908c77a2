//! The signal lines the MAC needs: fifteen pins routed to the Ethernet
//! alternate function. A value of [`MiiPins`] is the proof that the routing
//! collaborator configured them all before the device is built.

use vstd::prelude::*;

use crate::gpio::{Alternate, Pin, PushPull, PORT_A, PORT_B, PORT_C, PORT_G, PORT_H, PORT_I};
use crate::sealed::Sealed;

verus! {

/// The alternate-function number that routes a line to the Ethernet MAC.
pub const ETHERNET_ALTERNATE_FUNCTION: u8 = 11;

/// The fifteen lines of the media-independent interface, each already in
/// the Ethernet alternate function.
pub struct MiiPins {
    pub transmit_clk: Pin<Alternate<PushPull, ETHERNET_ALTERNATE_FUNCTION>, PORT_C, 3>,
    pub receive_clk: Pin<Alternate<PushPull, ETHERNET_ALTERNATE_FUNCTION>, PORT_A, 1>,
    pub transmit_en: Pin<Alternate<PushPull, ETHERNET_ALTERNATE_FUNCTION>, PORT_G, 11>,
    pub transmit_d0: Pin<Alternate<PushPull, ETHERNET_ALTERNATE_FUNCTION>, PORT_G, 13>,
    pub transmit_d1: Pin<Alternate<PushPull, ETHERNET_ALTERNATE_FUNCTION>, PORT_G, 14>,
    pub transmit_d2: Pin<Alternate<PushPull, ETHERNET_ALTERNATE_FUNCTION>, PORT_C, 2>,
    pub transmit_d3: Pin<Alternate<PushPull, ETHERNET_ALTERNATE_FUNCTION>, PORT_B, 8>,
    pub crs: Pin<Alternate<PushPull, ETHERNET_ALTERNATE_FUNCTION>, PORT_H, 2>,
    pub col: Pin<Alternate<PushPull, ETHERNET_ALTERNATE_FUNCTION>, PORT_H, 3>,
    pub receive_d0: Pin<Alternate<PushPull, ETHERNET_ALTERNATE_FUNCTION>, PORT_C, 4>,
    pub receive_d1: Pin<Alternate<PushPull, ETHERNET_ALTERNATE_FUNCTION>, PORT_C, 5>,
    pub receive_d2: Pin<Alternate<PushPull, ETHERNET_ALTERNATE_FUNCTION>, PORT_H, 6>,
    pub receive_d3: Pin<Alternate<PushPull, ETHERNET_ALTERNATE_FUNCTION>, PORT_H, 7>,
    pub receive_dv: Pin<Alternate<PushPull, ETHERNET_ALTERNATE_FUNCTION>, PORT_A, 7>,
    pub receive_er: Pin<Alternate<PushPull, ETHERNET_ALTERNATE_FUNCTION>, PORT_I, 10>,
}

/// A complete set of correctly-routed Ethernet signal lines.
pub trait EthernetPins: Sealed {

}

impl Sealed for MiiPins {

}

impl EthernetPins for MiiPins {

}

} // verus!
