//! Ethernet MAC/DMA driver core: the descriptor-ring engine.
//!
//! The CPU and the DMA engine share a fixed pool of frame buffers through a
//! circular chain of descriptors. Each descriptor carries a one-bit ownership
//! token; an entry is touched only by the side that currently holds the token.
//! The modules below model that shared memory as plain data and verify the
//! whole claim/recycle/send protocol over it.

pub mod buffer_lengths;
pub mod descriptor;
pub mod device;
pub mod pins;
pub mod receive;
pub mod ring;
pub mod status;
pub mod transmit;

use vstd::prelude::*;

verus! {

/// Largest frame a ring buffer can hold: an Ethernet frame with one VLAN tag.
pub const MAX_TRANSMISSION_UNIT: usize = 1522;

} // verus!
