//! The length word of a descriptor: buffer length, chained-mode bit, and the
//! receive-side end-of-ring bit (the hardware keeps that one here, not in the
//! status word — the asymmetry is the hardware's, and is preserved exactly).

use vstd::prelude::*;

use crate::ethernet::ring::Role;
use crate::ethernet::descriptor::SetBufferError;

verus! {

/// Mask of the first buffer's length field: 13 bits.
pub const BUFFER1_LEN_MASK: u32 = 0x1FFF;

/// Receive: the second pointer field links the next descriptor.
pub const RX_SECOND_ADDRESS_CHAINED_MASK: u32 = 0x4000;

/// Receive: last descriptor of the ring, the engine wraps to the first.
pub const RX_END_OF_RING_MASK: u32 = 0x8000;

/// One descriptor's length word, tagged with the direction it is read under.
#[derive(Clone, Copy, Debug, PartialEq, Eq, Structural)]
pub struct BufferLengths {
    bits: u32,
    role: Role,
}

impl BufferLengths {
    /// The raw word as the hardware sees it.
    pub closed spec fn bits(self) -> u32 {
        self.bits
    }

    /// The direction this word is read under.
    pub closed spec fn role(self) -> Role {
        self.role
    }

    /// The length field of the word.
    pub open spec fn spec_buffer1_len(self) -> u32 {
        self.bits() & BUFFER1_LEN_MASK
    }

    /// Receive: the end-of-ring bit is set.
    pub open spec fn spec_receive_end_of_ring(self) -> bool {
        self.bits() & RX_END_OF_RING_MASK != 0
    }

    /// The recorded buffer length, at run time.
    pub fn buffer1_len(&self) -> (r: usize)
        ensures
            r == self.spec_buffer1_len() as usize,
    {
        (self.bits & BUFFER1_LEN_MASK) as usize
    }

    /// Receive: is the end-of-ring bit set?
    pub fn receive_end_of_ring(&self) -> (r: bool)
        requires
            self.role() == Role::Receive,
        ensures
            r == self.spec_receive_end_of_ring(),
    {
        self.bits & RX_END_OF_RING_MASK != 0
    }

    /// Write the buffer length, preserving every other bit of the word.
    ///
    /// Fails with [`SetBufferError::TooLongBufferLen`] — leaving the word
    /// untouched — exactly when `len` does not fit the 13-bit field, that is
    /// when `len >= 0x1FFF`.
    pub fn set_buffer1_len(&mut self, len: usize) -> (r: Result<(), SetBufferError>)
        ensures
            len >= 0x1FFF ==> r == Result::<(), SetBufferError>::Err(
                SetBufferError::TooLongBufferLen,
            ) && *final(self) == *old(self),
            len < 0x1FFF ==> r == Result::<(), SetBufferError>::Ok(())
                && final(self).bits() == (old(self).bits() & !BUFFER1_LEN_MASK) | (len as u32)
                && final(self).role() == old(self).role(),
            len < 0x1FFF ==> final(self).spec_buffer1_len() == len
                && final(self).spec_receive_end_of_ring()
                    == old(self).spec_receive_end_of_ring(),
    {
        if len >= BUFFER1_LEN_MASK as usize {
            return Err(SetBufferError::TooLongBufferLen);
        }

        let zeroed = self.bits & !BUFFER1_LEN_MASK;
        proof {
            let p = self.bits;
            assert(len < 0x1FFF ==> {
                let b = (p & !BUFFER1_LEN_MASK) | ((len as u32) & BUFFER1_LEN_MASK);
                b == (p & !BUFFER1_LEN_MASK) | (len as u32)
                    && b & BUFFER1_LEN_MASK == len as u32
                    && (b & RX_END_OF_RING_MASK != 0) == (p & RX_END_OF_RING_MASK != 0)
            }) by (bit_vector);
        }
        self.bits = zeroed | (len as u32 & BUFFER1_LEN_MASK);

        Ok(())
    }

    /// Default transmit word: all zero, the length is set per frame.
    pub fn new_transmit() -> (r: BufferLengths)
        ensures
            r.bits() == 0,
            r.role() == Role::Transmit,
    {
        BufferLengths { bits: 0, role: Role::Transmit }
    }

    /// Default receive word: only the chained-mode bit, which stays set
    /// because this design uses chained single-buffer descriptors only.
    pub fn new_receive() -> (r: BufferLengths)
        ensures
            r.bits() == RX_SECOND_ADDRESS_CHAINED_MASK,
            r.role() == Role::Receive,
            !r.spec_receive_end_of_ring(),
            r.spec_buffer1_len() == 0,
    {
        proof {
            assert(RX_SECOND_ADDRESS_CHAINED_MASK & RX_END_OF_RING_MASK == 0
                && RX_SECOND_ADDRESS_CHAINED_MASK & BUFFER1_LEN_MASK == 0) by (bit_vector);
        }
        BufferLengths { bits: RX_SECOND_ADDRESS_CHAINED_MASK, role: Role::Receive }
    }

    /// Mark the last receive descriptor: the engine wraps to the first.
    pub fn set_receive_end_of_ring(&mut self)
        requires
            old(self).role() == Role::Receive,
        ensures
            final(self).bits() == old(self).bits() | RX_END_OF_RING_MASK,
            final(self).role() == old(self).role(),
            final(self).spec_receive_end_of_ring(),
            final(self).spec_buffer1_len() == old(self).spec_buffer1_len(),
    {
        self.bits = self.bits | RX_END_OF_RING_MASK;
        proof {
            let b = self.bits;
            let p = old(self).bits;
            assert(b == p | RX_END_OF_RING_MASK ==> b & RX_END_OF_RING_MASK != 0
                && b & BUFFER1_LEN_MASK == p & BUFFER1_LEN_MASK) by (bit_vector);
        }
    }
}

} // verus!
