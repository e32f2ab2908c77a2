//! The device layer: construction, the divider check and the polled entry
//! points.

use stm32f207_hal::ethernet::device::{mii_clock_range, EthernetDevice, EthernetDeviceError};
use stm32f207_hal::ethernet::ring::RingEntry;
use stm32f207_hal::ethernet::transmit::TransmitError;
use stm32f207_hal::rcc::Clocks;
use stm32f207_hal::time::Hertz;

fn clocks_with_hclk(hclk: u32) -> Clocks {
    Clocks::from_parts(Hertz(hclk), Hertz(hclk / 4), Hertz(hclk / 2), 4, 2, Hertz(hclk))
}

fn device(n_receive: usize, n_transmit: usize, hclk: u32) -> Result<
    EthernetDevice,
    EthernetDeviceError,
> {
    let mut receive_entries = Vec::new();
    for _ in 0..n_receive {
        receive_entries.push(RingEntry::new_receive());
    }
    let mut transmit_entries = Vec::new();
    for _ in 0..n_transmit {
        transmit_entries.push(RingEntry::new_transmit());
    }
    EthernetDevice::new(receive_entries, transmit_entries, clocks_with_hclk(hclk))
}

/// The divider selection follows the exact AHB-clock ranges, and below
/// 25 MHz there is none.
#[test]
fn divider_ranges_are_exact() {
    assert_eq!(
        mii_clock_range(&clocks_with_hclk(24_999_999)),
        Err(EthernetDeviceError::WrongClocks)
    );
    assert_eq!(mii_clock_range(&clocks_with_hclk(25_000_000)), Ok(0b010));
    assert_eq!(mii_clock_range(&clocks_with_hclk(34_999_999)), Ok(0b010));
    assert_eq!(mii_clock_range(&clocks_with_hclk(35_000_000)), Ok(0b011));
    assert_eq!(mii_clock_range(&clocks_with_hclk(59_999_999)), Ok(0b011));
    assert_eq!(mii_clock_range(&clocks_with_hclk(60_000_000)), Ok(0b000));
    assert_eq!(mii_clock_range(&clocks_with_hclk(99_999_999)), Ok(0b000));
    assert_eq!(mii_clock_range(&clocks_with_hclk(100_000_000)), Ok(0b001));
}

/// Construction aborts entirely on a too-slow bus clock and succeeds above
/// the threshold.
#[test]
fn construction_checks_the_clock() {
    assert!(matches!(device(2, 2, 8_000_000), Err(EthernetDeviceError::WrongClocks)));
    assert!(device(2, 2, 30_000_000).is_ok());
}

/// The built device grants every receive slot to the engine and keeps
/// every transmit slot.
#[test]
fn fresh_device_ring_ownership() {
    let device = device(3, 2, 30_000_000).unwrap();
    for i in 0..3 {
        assert!(device.receive_ring.entry(i).is_owned());
    }
    for i in 0..2 {
        assert!(!device.transmit_ring.entry(i).is_owned());
    }
}

/// One polled receive-and-release round through the device.
#[test]
fn device_receive_and_release() {
    let mut device = device(2, 1, 30_000_000).unwrap();

    assert!(device.receive().is_none());

    device.receive_ring.complete_receive(0, 42, true, true, false);
    let frame = device.receive().expect("completed frame must surface");
    assert_eq!(frame.entry_index(), 0);
    assert_eq!(frame.len(), 42);

    device.release_frame(frame);
    assert!(device.receive_ring.entry(0).is_owned());
}

/// The device's transmit path delegates to the ring, result included.
#[test]
fn device_transmit_delegates() {
    let mut device = device(1, 1, 30_000_000).unwrap();
    assert_eq!(device.transmit(5, |w: Vec<u8>| (w, 99u8)), Ok(99));
    assert_eq!(
        device.transmit(5, |w: Vec<u8>| (w, 0u8)),
        Err(TransmitError::BufferFull)
    );
}

/// The advertised capabilities: one VLAN-tagged frame per buffer, single
/// beat bursts.
#[test]
fn capabilities_are_fixed() {
    let device = device(1, 1, 30_000_000).unwrap();
    let caps = device.capabilities();
    assert_eq!(caps.max_transmission_unit, 1522);
    assert_eq!(caps.max_burst_size, Some(1));
}
