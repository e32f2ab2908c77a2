//! The status word of a descriptor: ownership token, error summary and the
//! role-specific segment/wrap bits, in the exact layout the DMA engine reads.

use vstd::prelude::*;

use crate::ethernet::ring::Role;

verus! {

/// Ownership token: set means the DMA engine holds the entry.
pub const OWN_MASK: u32 = 0x8000_0000;

/// Error summary: the engine saw a framing, CRC or overflow problem.
pub const ERROR_SUMMARY_MASK: u32 = 0x8000;

/// Transmit: raise an interrupt when the frame has left (unused, poll-driven).
pub const TX_INTERRUPT_COMPLETION_MASK: u32 = 0x4000_0000;

/// Transmit: this buffer holds the last piece of its frame.
pub const TX_LAST_SEGMENT_MASK: u32 = 0x2000_0000;

/// Transmit: this buffer holds the first piece of its frame.
pub const TX_FIRST_SEGMENT_MASK: u32 = 0x1000_0000;

/// Transmit: the second pointer field links the next descriptor instead of a
/// second buffer.
pub const TX_SECOND_ADDRESS_CHAINED_MASK: u32 = 0x0010_0000;

/// Transmit: last descriptor of the ring, the engine wraps to the first.
pub const TX_END_OF_RING_MASK: u32 = 0x0020_0000;

/// Receive: the engine wrote the first piece of a frame here.
pub const RX_FIRST_SEGMENT_MASK: u32 = 0x0200;

/// Receive: the engine wrote the last piece of a frame here.
pub const RX_LAST_SEGMENT_MASK: u32 = 0x0100;

/// Receive: bit position of the frame-length field.
pub const RX_FRAME_LENGTH_SHIFT: u32 = 16;

/// Receive: mask of the frame-length field.
pub const RX_FRAME_LENGTH_MASK: u32 = 0x1FFF_0000;

/// One descriptor's status word, tagged with the direction it is read under.
#[derive(Clone, Copy, Debug, PartialEq, Eq, Structural)]
pub struct Status {
    bits: u32,
    role: Role,
}

impl Status {
    /// The raw word as the hardware sees it.
    pub closed spec fn bits(self) -> u32 {
        self.bits
    }

    /// The direction this word is read under.
    pub closed spec fn role(self) -> Role {
        self.role
    }

    /// The ownership token is set: the DMA engine holds the entry.
    pub open spec fn spec_is_owned(self) -> bool {
        self.bits() & OWN_MASK != 0
    }

    /// The error-summary bit is set.
    pub open spec fn spec_has_error(self) -> bool {
        self.bits() & ERROR_SUMMARY_MASK != 0
    }

    /// Receive: the first-segment bit is set.
    pub open spec fn spec_is_start_of_frame(self) -> bool {
        self.bits() & RX_FIRST_SEGMENT_MASK != 0
    }

    /// Receive: the last-segment bit is set.
    pub open spec fn spec_is_end_of_frame(self) -> bool {
        self.bits() & RX_LAST_SEGMENT_MASK != 0
    }

    /// Receive: the frame-length field of the word.
    pub open spec fn spec_frame_len(self) -> u32 {
        (self.bits() & RX_FRAME_LENGTH_MASK) >> RX_FRAME_LENGTH_SHIFT
    }

    /// Transmit: the end-of-ring bit is set.
    pub open spec fn spec_transmit_end_of_ring(self) -> bool {
        self.bits() & TX_END_OF_RING_MASK != 0
    }

    /// The direction tag, at run time.
    pub fn role_tag(&self) -> (r: Role)
        ensures
            r == self.role(),
    {
        self.role
    }

    /// Transmit: is the end-of-ring bit set?
    pub fn transmit_end_of_ring(&self) -> (r: bool)
        requires
            self.role() == Role::Transmit,
        ensures
            r == self.spec_transmit_end_of_ring(),
    {
        self.bits & TX_END_OF_RING_MASK != 0
    }

    /// Does the DMA engine currently hold the entry?
    pub fn is_owned(&self) -> (r: bool)
        ensures
            r == self.spec_is_owned(),
    {
        self.bits & OWN_MASK != 0
    }

    /// Hand the entry to the DMA engine by raising the ownership token.
    pub fn set_owned(&mut self)
        ensures
            final(self).bits() == old(self).bits() | OWN_MASK,
            final(self).role() == old(self).role(),
            final(self).spec_is_owned(),
            final(self).spec_transmit_end_of_ring() == old(self).spec_transmit_end_of_ring(),
            final(self).spec_has_error() == old(self).spec_has_error(),
    {
        self.bits = self.bits | OWN_MASK;
        proof {
            let b = self.bits;
            let p = old(self).bits;
            assert(b == p | OWN_MASK ==> b & OWN_MASK != 0
                && b & TX_END_OF_RING_MASK == p & TX_END_OF_RING_MASK
                && b & ERROR_SUMMARY_MASK == p & ERROR_SUMMARY_MASK) by (bit_vector);
        }
    }

    /// Did the engine flag a framing, CRC or overflow problem?
    ///
    /// Meaningful only once the entry has completed, that is while the
    /// ownership token is down.
    pub fn has_error(&self) -> (r: bool)
        requires
            !self.spec_is_owned(),
        ensures
            r == self.spec_has_error(),
    {
        self.bits & ERROR_SUMMARY_MASK != 0
    }

    /// Default transmit word: interrupt-on-completion, first and last
    /// segment, and chained mode, since every sent unit is one whole frame
    /// in one buffer.
    pub fn new_transmit() -> (r: Status)
        ensures
            r.bits() == (TX_INTERRUPT_COMPLETION_MASK | TX_LAST_SEGMENT_MASK
                | TX_FIRST_SEGMENT_MASK | TX_SECOND_ADDRESS_CHAINED_MASK),
            r.role() == Role::Transmit,
            !r.spec_is_owned(),
            !r.spec_transmit_end_of_ring(),
            !r.spec_has_error(),
    {
        let bits: u32 = TX_INTERRUPT_COMPLETION_MASK | TX_LAST_SEGMENT_MASK
            | TX_FIRST_SEGMENT_MASK | TX_SECOND_ADDRESS_CHAINED_MASK;
        proof {
            assert({
                let b = TX_INTERRUPT_COMPLETION_MASK | TX_LAST_SEGMENT_MASK
                    | TX_FIRST_SEGMENT_MASK | TX_SECOND_ADDRESS_CHAINED_MASK;
                b & OWN_MASK == 0 && b & TX_END_OF_RING_MASK == 0 && b & ERROR_SUMMARY_MASK == 0
            }) by (bit_vector);
        }
        Status { bits, role: Role::Transmit }
    }

    /// Mark the last transmit descriptor: the engine wraps to the first.
    pub fn set_transmit_end_of_ring(&mut self)
        requires
            old(self).role() == Role::Transmit,
        ensures
            final(self).bits() == old(self).bits() | TX_END_OF_RING_MASK,
            final(self).role() == old(self).role(),
            final(self).spec_transmit_end_of_ring(),
            final(self).spec_is_owned() == old(self).spec_is_owned(),
    {
        self.bits = self.bits | TX_END_OF_RING_MASK;
        proof {
            let b = self.bits;
            let p = old(self).bits;
            assert(b == p | TX_END_OF_RING_MASK ==> b & TX_END_OF_RING_MASK != 0
                && (b & OWN_MASK != 0) == (p & OWN_MASK != 0)) by (bit_vector);
        }
    }

    /// Default receive word: all zero, the engine fills it on completion.
    pub fn new_receive() -> (r: Status)
        ensures
            r.bits() == 0,
            r.role() == Role::Receive,
            !r.spec_is_owned(),
            !r.spec_has_error(),
            !r.spec_is_start_of_frame(),
            !r.spec_is_end_of_frame(),
    {
        proof {
            assert(0u32 & OWN_MASK == 0 && 0u32 & ERROR_SUMMARY_MASK == 0
                && 0u32 & RX_FIRST_SEGMENT_MASK == 0 && 0u32 & RX_LAST_SEGMENT_MASK == 0)
                by (bit_vector);
        }
        Status { bits: 0, role: Role::Receive }
    }

    /// Length of a completed receive frame, if the whole frame landed in
    /// this one buffer.
    ///
    /// Returns the length field only when both the first-segment and the
    /// last-segment bit are set; anything else means a frame that straddled
    /// buffers or never finished, which this single-buffer design rejects.
    pub fn get_frame_len(&self) -> (r: Option<usize>)
        requires
            self.role() == Role::Receive,
        ensures
            r is Some <==> (self.spec_is_start_of_frame() && self.spec_is_end_of_frame()),
            r is Some ==> r->0 == self.spec_frame_len(),
    {
        if self.is_start_of_frame() && self.is_end_of_frame() {
            let length = (self.bits & RX_FRAME_LENGTH_MASK) >> RX_FRAME_LENGTH_SHIFT;
            Some(length as usize)
        } else {
            None
        }
    }

    /// The status word the receive engine leaves behind when it completes a
    /// reception: ownership token cleared, segment and error flags as the
    /// hardware observed them, and the frame length in the length field.
    ///
    /// This models the engine's write for simulation; on the device the word
    /// arrives through shared memory.
    pub fn receive_completed(frame_len: usize, first: bool, last: bool, error: bool) -> (r:
        Status)
        requires
            frame_len <= 0x1FFF,
        ensures
            r.role() == Role::Receive,
            !r.spec_is_owned(),
            r.spec_is_start_of_frame() == first,
            r.spec_is_end_of_frame() == last,
            r.spec_has_error() == error,
            r.spec_frame_len() == frame_len,
    {
        let first_bit: u32 = if first { RX_FIRST_SEGMENT_MASK } else { 0 };
        let last_bit: u32 = if last { RX_LAST_SEGMENT_MASK } else { 0 };
        let error_bit: u32 = if error { ERROR_SUMMARY_MASK } else { 0 };
        let bits: u32 = ((frame_len as u32) << RX_FRAME_LENGTH_SHIFT) | first_bit | last_bit
            | error_bit;
        proof {
            let l = frame_len as u32;
            let b = bits;
            let fb = first_bit;
            let lb = last_bit;
            let eb = error_bit;
            assert(b & OWN_MASK == 0 && (b & RX_FIRST_SEGMENT_MASK != 0) == (fb != 0) && (b
                & RX_LAST_SEGMENT_MASK != 0) == (lb != 0) && (b & ERROR_SUMMARY_MASK != 0) == (eb
                != 0) && (b & RX_FRAME_LENGTH_MASK) >> RX_FRAME_LENGTH_SHIFT == l) by (bit_vector)
                requires
                    l <= 0x1FFF,
                    b == ((l << RX_FRAME_LENGTH_SHIFT) | fb | lb | eb),
                    fb == RX_FIRST_SEGMENT_MASK || fb == 0,
                    lb == RX_LAST_SEGMENT_MASK || lb == 0,
                    eb == ERROR_SUMMARY_MASK || eb == 0,
            ;
        }
        Status { bits, role: Role::Receive }
    }

    /// The status word the transmit engine leaves behind when a frame has
    /// left: ownership token cleared, error summary as observed, the
    /// software-set shape bits untouched.
    ///
    /// This models the engine's write for simulation; on the device the word
    /// arrives through shared memory.
    pub fn transmit_completed(self, error: bool) -> (r: Status)
        requires
            self.role() == Role::Transmit,
        ensures
            r.role() == Role::Transmit,
            !r.spec_is_owned(),
            r.spec_has_error() == error,
            r.spec_transmit_end_of_ring() == self.spec_transmit_end_of_ring(),
    {
        let cleared = self.bits & !(OWN_MASK | ERROR_SUMMARY_MASK);
        let bits = if error {
            cleared | ERROR_SUMMARY_MASK
        } else {
            cleared
        };
        proof {
            let p = self.bits;
            assert({
                let c = p & !(OWN_MASK | ERROR_SUMMARY_MASK);
                c & OWN_MASK == 0 && c & ERROR_SUMMARY_MASK == 0
                    && (c | ERROR_SUMMARY_MASK) & OWN_MASK == 0
                    && (c | ERROR_SUMMARY_MASK) & ERROR_SUMMARY_MASK != 0
                    && c & TX_END_OF_RING_MASK == p & TX_END_OF_RING_MASK
                    && (c | ERROR_SUMMARY_MASK) & TX_END_OF_RING_MASK == p & TX_END_OF_RING_MASK
            }) by (bit_vector);
        }
        Status { bits, role: Role::Transmit }
    }

    /// Receive: did the engine write the start of a frame here?
    pub fn is_start_of_frame(&self) -> (r: bool)
        requires
            self.role() == Role::Receive,
        ensures
            r == self.spec_is_start_of_frame(),
    {
        self.bits & RX_FIRST_SEGMENT_MASK != 0
    }

    /// Receive: did the engine write the end of a frame here?
    pub fn is_end_of_frame(&self) -> (r: bool)
        requires
            self.role() == Role::Receive,
        ensures
            r == self.spec_is_end_of_frame(),
    {
        self.bits & RX_LAST_SEGMENT_MASK != 0
    }
}

} // verus!
