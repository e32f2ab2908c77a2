//! The Ethernet device: both descriptor rings and the polled entry points
//! the network stack drives.
//!
//! The hardware side of construction — clock-enable bits, the MAC reset
//! pulse, the DMA software reset and the register programming — lives in the
//! register front end; this module holds every decision in that sequence:
//! the management-clock divider and the ring construction.

use vstd::prelude::*;

use crate::ethernet::MAX_TRANSMISSION_UNIT;
use crate::ethernet::receive::{ReceiveFrame, ReceiveRing};
use crate::ethernet::ring::{RingEntry, Role};
use crate::ethernet::transmit::{TransmitError, TransmitRing};
use crate::rcc::Clocks;

verus! {

/// Failure of device construction.
#[derive(Clone, Copy, Debug, PartialEq, Eq, Structural)]
pub enum EthernetDeviceError {
    /// The AHB clock is too slow for any management-clock divider: below
    /// that rate no divider meets the management interface's timing.
    WrongClocks,
}

/// What the device offers the network stack: at most one whole VLAN-tagged
/// frame per buffer, and single-beat bus bursts so the CPU is not starved
/// of memory bandwidth.
#[derive(Clone, Copy, Debug, PartialEq, Eq, Structural)]
pub struct DeviceCapabilities {
    pub max_transmission_unit: usize,
    pub max_burst_size: Option<usize>,
}

/// The divider that scales the AHB clock down to the MAC's management
/// interface, as the bit pattern of the clock-range register field.
///
/// Fails with [`EthernetDeviceError::WrongClocks`] exactly when the AHB
/// clock is under 25 MHz, where no divider satisfies the interface timing.
pub fn mii_clock_range(clocks: &Clocks) -> (r: Result<u8, EthernetDeviceError>)
    ensures
        clocks.hclk().0 < 25_000_000 <==> r == Result::<u8, EthernetDeviceError>::Err(
            EthernetDeviceError::WrongClocks,
        ),
        25_000_000 <= clocks.hclk().0 < 35_000_000 ==> r == Result::<
            u8,
            EthernetDeviceError,
        >::Ok(0b010),
        35_000_000 <= clocks.hclk().0 < 60_000_000 ==> r == Result::<
            u8,
            EthernetDeviceError,
        >::Ok(0b011),
        60_000_000 <= clocks.hclk().0 < 100_000_000 ==> r == Result::<
            u8,
            EthernetDeviceError,
        >::Ok(0b000),
        clocks.hclk().0 >= 100_000_000 ==> r == Result::<u8, EthernetDeviceError>::Ok(0b001),
{
    let hclk = clocks.hclk().0;
    if hclk < 25_000_000 {
        Err(EthernetDeviceError::WrongClocks)
    } else if hclk < 35_000_000 {
        Ok(0b010)  // AHB clock divided by 16
    } else if hclk < 60_000_000 {
        Ok(0b011)  // AHB clock divided by 26
    } else if hclk < 100_000_000 {
        Ok(0b000)  // AHB clock divided by 42
    } else {
        Ok(0b001)  // AHB clock divided by 62
    }
}

/// The Ethernet device: the two descriptor rings, polled by the stack.
#[derive(Debug)]
pub struct EthernetDevice {
    /// The ring the DMA engine fills with received frames.
    pub receive_ring: ReceiveRing,
    /// The ring software fills with frames to send.
    pub transmit_ring: TransmitRing,
}

impl EthernetDevice {
    /// Both rings in shape.
    pub open spec fn wf(self) -> bool {
        &&& self.receive_ring.wf()
        &&& self.transmit_ring.wf()
    }

    /// Build the device over its ring slots.
    ///
    /// Checks that the AHB clock admits a management-clock divider — the
    /// only way construction can fail — then builds both rings: every
    /// receive slot granted to the DMA engine, every transmit slot kept by
    /// software. The register front end performs the reset and register
    /// sequence around this and registers both rings with the engine.
    pub fn new(
        receive_entries: Vec<RingEntry>,
        transmit_entries: Vec<RingEntry>,
        clocks: Clocks,
    ) -> (r: Result<EthernetDevice, EthernetDeviceError>)
        requires
            receive_entries@.len() >= 1,
            forall|i: int|
                0 <= i < receive_entries@.len() ==> {
                    let e = #[trigger] receive_entries@[i];
                    e.wf() && e.role() == Role::Receive && !e.spec_is_owned()
                        && !e.spec_claimed() && !e.descriptor().spec_end_of_ring()
                        && e.completed_sane()
                },
            transmit_entries@.len() >= 1,
            forall|i: int|
                0 <= i < transmit_entries@.len() ==> {
                    let e = #[trigger] transmit_entries@[i];
                    e.wf() && e.role() == Role::Transmit && !e.spec_is_owned()
                        && !e.spec_claimed() && !e.descriptor().spec_end_of_ring()
                },
        ensures
            clocks.hclk().0 < 25_000_000 <==> r == Result::<
                EthernetDevice,
                EthernetDeviceError,
            >::Err(EthernetDeviceError::WrongClocks),
            r matches Result::Ok(d) ==> d.wf() && d.receive_ring.entries().len()
                == receive_entries@.len() && d.transmit_ring.entries().len()
                == transmit_entries@.len() && d.receive_ring.spec_next_entry() == 0
                && d.transmit_ring.spec_next_entry() == 0 && (forall|i: int|
                0 <= i < receive_entries@.len() ==> (#[trigger] d.receive_ring.entries()[i]).spec_is_owned())
                && (forall|i: int|
                0 <= i < transmit_entries@.len()
                    ==> !(#[trigger] d.transmit_ring.entries()[i]).spec_is_owned()),
    {
        match mii_clock_range(&clocks) {
            Ok(_) => {},
            Err(e) => {
                return Err(e);
            },
        }

        // The rings register themselves conceptually here: the front end
        // writes each ring's base address and starts the engines.
        let receive_ring = ReceiveRing::new(receive_entries);
        let transmit_ring = TransmitRing::new(transmit_entries);

        Ok(EthernetDevice { receive_ring, transmit_ring })
    }

    /// One receive poll: claim the frame at the receive cursor, if the
    /// engine has completed one there. Errors are terminal outcomes of the
    /// claim — the slot involved was recycled — and surface as `None`, as
    /// does an empty ring slot; the claimed frame, when there is one, must
    /// be given back through [`EthernetDevice::release_frame`].
    pub fn receive(&mut self) -> (r: Option<ReceiveFrame>)
        requires
            old(self).wf(),
        ensures
            final(self).wf(),
            final(self).transmit_ring == old(self).transmit_ring,
            r matches Option::Some(frame) ==> {
                let idx = old(self).receive_ring.spec_next_entry() as int;
                let e = old(self).receive_ring.entries()[idx];
                frame.spec_entry_index() == idx && frame.bytes() == e.buffer().take(
                    e.descriptor().status().spec_frame_len() as int,
                ) && final(self).receive_ring.entries()[idx].spec_claimed()
            },
            ({
                let idx = old(self).receive_ring.spec_next_entry() as int;
                let e = old(self).receive_ring.entries()[idx];
                (!e.spec_claimed() && !e.spec_is_owned() && !e.descriptor().spec_has_error()
                    && e.descriptor().status().spec_is_start_of_frame()
                    && e.descriptor().status().spec_is_end_of_frame()) <==> r is Some
            }),
    {
        match self.receive_ring.receive_frame() {
            Ok(frame) => Some(frame),
            Err(_) => None,
        }
    }

    /// Give a claimed receive frame back to the DMA engine.
    pub fn release_frame(&mut self, frame: ReceiveFrame)
        requires
            old(self).wf(),
            frame.spec_entry_index() < old(self).receive_ring.entries().len(),
            old(self).receive_ring.entries()[frame.spec_entry_index() as int].spec_claimed(),
        ensures
            final(self).wf(),
            final(self).transmit_ring == old(self).transmit_ring,
            final(self).receive_ring.entries()[frame.spec_entry_index() as int].spec_is_owned(),
            !final(self).receive_ring.entries()[frame.spec_entry_index() as int].spec_claimed(),
    {
        self.receive_ring.release_frame(frame);
    }

    /// One transmit poll: send a frame of `length` bytes from the transmit
    /// cursor's slot, produced by `func` (see
    /// [`TransmitRing::transmit_frame`]).
    pub fn transmit<R, F: FnOnce(Vec<u8>) -> (Vec<u8>, R)>(
        &mut self,
        length: usize,
        func: F,
    ) -> (r: Result<R, TransmitError>)
        requires
            old(self).wf(),
            length <= MAX_TRANSMISSION_UNIT || length >= 0x1FFF,
            forall|w: Vec<u8>| w@.len() == length ==> call_requires(func, (w,)),
            forall|w: Vec<u8>, out: (Vec<u8>, R)|
                #[trigger] call_ensures(func, (w,), out) ==> out.0@.len() == w@.len(),
        ensures
            final(self).wf(),
            final(self).receive_ring == old(self).receive_ring,
            ({
                let idx = old(self).transmit_ring.spec_next_entry() as int;
                let e = old(self).transmit_ring.entries()[idx];
                &&& (e.spec_is_owned() || e.spec_claimed()) ==> r == Result::<
                    R,
                    TransmitError,
                >::Err(TransmitError::BufferFull) && final(self).transmit_ring.entries()
                    == old(self).transmit_ring.entries()
                &&& !e.spec_is_owned() && !e.spec_claimed() && length >= 0x1FFF ==> r
                    == Result::<R, TransmitError>::Err(TransmitError::FrameTooLong)
                    && final(self).transmit_ring.entries()
                    == old(self).transmit_ring.entries()
                &&& !e.spec_is_owned() && !e.spec_claimed() && length < 0x1FFF ==> r is Ok
                    && final(self).transmit_ring.entries()[idx].spec_is_owned()
            }),
    {
        self.transmit_ring.transmit_frame(length, func)
    }

    /// What the device offers the network stack.
    pub fn capabilities(&self) -> (r: DeviceCapabilities)
        ensures
            r.max_transmission_unit == MAX_TRANSMISSION_UNIT,
            r.max_burst_size == Some(1usize),
    {
        DeviceCapabilities {
            max_transmission_unit: MAX_TRANSMISSION_UNIT,
            // Cycle-stealing: single-beat bursts keep the system bus fair.
            max_burst_size: Some(1),
        }
    }
}

} // verus!
