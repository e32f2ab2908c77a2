//! Driver core for an STM32F2 Ethernet MAC with its DMA descriptor rings,
//! together with the clock, timing and fixed-point helpers that surround it.
//!
//! The heart of the crate is the descriptor-ring engine under [`ethernet`]:
//! a software model of the circular descriptor chain that the CPU shares
//! with the autonomous DMA engine, coordinated by a one-bit ownership token
//! per ring slot. Every state transition of that protocol is specified and
//! verified here; the memory-mapped register accesses that surround it are
//! left to the (unverified) hardware front end.

pub mod bezier;
pub mod crc;
pub mod ethernet;
pub mod fixed_point;
pub mod gpio;
pub mod rcc;
pub mod sealed;
pub mod semihosting_files;
pub mod stopwatch;
pub mod time;
