//! The clock tree, the stopwatch arithmetic and the host-file helpers.

use stm32f207_hal::rcc::{Rcc, HSI};
use stm32f207_hal::semihosting_files::{seek_target, transferred, SeekError, SeekFrom};
use stm32f207_hal::stopwatch::StopWatch;
use stm32f207_hal::time::Hertz;

#[test]
fn freeze_defaults_run_from_the_oscillator() {
    let clocks = Rcc::new().cfgr.freeze();
    assert_eq!(clocks.sysclk().0, HSI);
    assert_eq!(clocks.hclk().0, HSI);
    assert_eq!(clocks.ppre1(), 4);
    assert_eq!(clocks.ppre2(), 2);
    assert_eq!(clocks.pclk1().0, HSI / 4);
    assert_eq!(clocks.pclk2().0, HSI / 2);
}

#[test]
fn freeze_selects_the_requested_tree() {
    let clocks = Rcc::new()
        .cfgr
        .sysclk(Hertz(60_000_000))
        .hclk(Hertz(30_000_000))
        .pclk1(Hertz(15_000_000))
        .pclk2(Hertz(30_000_000))
        .freeze();
    assert_eq!(clocks.sysclk().0, 60_000_000);
    assert_eq!(clocks.hclk().0, 30_000_000);
    assert_eq!(clocks.pclk1().0, 15_000_000);
    assert_eq!(clocks.pclk2().0, 30_000_000);
    assert_eq!(clocks.ppre1(), 2);
    assert_eq!(clocks.ppre2(), 1);
}

#[test]
fn freeze_clamps_the_pll() {
    // A request beyond the PLL's range tops out at sixteen times half the
    // oscillator.
    let clocks = Rcc::new().cfgr.sysclk(Hertz(200_000_000)).freeze();
    assert_eq!(clocks.sysclk().0, 16 * (HSI / 2));
}

#[test]
fn stopwatch_counts_cycles() {
    let watch = StopWatch::start(10);
    assert_eq!(watch.stop(30), 20);
    assert_eq!(watch.stop(10), 0);
}

#[test]
fn stopwatch_survives_counter_wraparound() {
    let watch = StopWatch::start(0xFFFF_FFF0);
    assert_eq!(watch.stop(16), 32);
}

#[test]
fn seek_resolves_against_the_file_length() {
    assert_eq!(seek_target(100, SeekFrom::Start(0)), Ok(0));
    assert_eq!(seek_target(100, SeekFrom::Start(100)), Ok(100));
    assert_eq!(
        seek_target(100, SeekFrom::Start(101)),
        Err(SeekError::PositionOutOfBounds)
    );
    assert_eq!(seek_target(100, SeekFrom::End(0)), Ok(100));
    assert_eq!(seek_target(100, SeekFrom::End(-100)), Ok(0));
    assert_eq!(seek_target(100, SeekFrom::End(-40)), Ok(60));
    assert_eq!(
        seek_target(100, SeekFrom::End(-101)),
        Err(SeekError::PositionOutOfBounds)
    );
    assert_eq!(
        seek_target(100, SeekFrom::End(5)),
        Err(SeekError::PositionOutOfBounds)
    );
}

#[test]
fn transfer_reports_are_checked() {
    assert_eq!(transferred(10, 0), Ok(10));
    assert_eq!(transferred(10, 3), Ok(7));
    assert_eq!(transferred(10, 10), Ok(0));
    assert_eq!(transferred(10, 11), Err(()));
}
