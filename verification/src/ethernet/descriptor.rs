//! One DMA descriptor: status word, length word, buffer pointer, and the
//! link to the next descriptor of the circular chain.
//!
//! In hardware the two pointer fields hold real addresses. Software never
//! reads them back as addresses, so this model stores each as the index of
//! the ring slot it designates; the hardware front end turns an index into
//! the address of the corresponding slot when it registers the ring.

use vstd::prelude::*;

use crate::ethernet::buffer_lengths::BufferLengths;
use crate::ethernet::ring::Role;
use crate::ethernet::status::Status;

verus! {

/// Failure of a buffer-length write.
#[derive(Clone, Copy, Debug, PartialEq, Eq, Structural)]
pub enum SetBufferError {
    /// The requested length does not fit the descriptor's 13-bit field.
    TooLongBufferLen,
}

/// One buffer slot's record, as the DMA engine reads it.
#[derive(Clone, Copy, Debug, PartialEq, Eq, Structural)]
pub struct Descriptor {
    status: Status,
    buffer_lengths: BufferLengths,
    /// Ring index of the buffer this descriptor points at; `None` models the
    /// null pointer a fresh descriptor holds.
    buffer1: Option<usize>,
    /// Ring index of the next descriptor in the chain; `None` models null.
    next_descriptor: Option<usize>,
}

impl Descriptor {
    /// The status word.
    pub closed spec fn status(self) -> Status {
        self.status
    }

    /// The length word.
    pub closed spec fn buffer_lengths(self) -> BufferLengths {
        self.buffer_lengths
    }

    /// The slot index the buffer pointer designates.
    pub closed spec fn buffer1(self) -> Option<usize> {
        self.buffer1
    }

    /// The slot index the next-descriptor link designates.
    pub closed spec fn next_descriptor(self) -> Option<usize> {
        self.next_descriptor
    }

    /// Both words carry the same direction tag.
    pub open spec fn wf(self) -> bool {
        self.status().role() == self.buffer_lengths().role()
    }

    /// The direction of this descriptor.
    pub open spec fn role(self) -> Role {
        self.status().role()
    }

    /// The DMA engine holds this entry.
    pub open spec fn spec_is_owned(self) -> bool {
        self.status().spec_is_owned()
    }

    /// The error-summary bit is set.
    pub open spec fn spec_has_error(self) -> bool {
        self.status().spec_has_error()
    }

    /// The role-appropriate end-of-ring bit is set.
    pub open spec fn spec_end_of_ring(self) -> bool {
        if self.role() == Role::Receive {
            self.buffer_lengths().spec_receive_end_of_ring()
        } else {
            self.status().spec_transmit_end_of_ring()
        }
    }

    /// Is the role-appropriate end-of-ring bit set?
    pub fn end_of_ring(&self) -> (r: bool)
        requires
            self.wf(),
        ensures
            r == self.spec_end_of_ring(),
    {
        match self.status.role_tag() {
            Role::Receive => self.buffer_lengths.receive_end_of_ring(),
            Role::Transmit => self.status.transmit_end_of_ring(),
        }
    }

    /// The slot index the next-descriptor link designates.
    pub fn next_descriptor_index(&self) -> (r: Option<usize>)
        ensures
            r == self.next_descriptor(),
    {
        self.next_descriptor
    }

    /// The slot index the buffer pointer designates.
    pub fn buffer1_index(&self) -> (r: Option<usize>)
        ensures
            r == self.buffer1(),
    {
        self.buffer1
    }

    /// The recorded buffer length.
    pub fn buffer1_len(&self) -> (r: usize)
        ensures
            r == self.buffer_lengths().spec_buffer1_len(),
    {
        self.buffer_lengths.buffer1_len()
    }

    /// Fresh transmit descriptor: default words, null pointers.
    pub fn new_transmit() -> (r: Descriptor)
        ensures
            r.wf(),
            r.role() == Role::Transmit,
            r.status().bits() == (crate::ethernet::status::TX_INTERRUPT_COMPLETION_MASK
                | crate::ethernet::status::TX_LAST_SEGMENT_MASK
                | crate::ethernet::status::TX_FIRST_SEGMENT_MASK
                | crate::ethernet::status::TX_SECOND_ADDRESS_CHAINED_MASK),
            r.buffer_lengths().bits() == 0,
            r.buffer1() is None,
            r.next_descriptor() is None,
            !r.spec_is_owned(),
            !r.spec_end_of_ring(),
            !r.spec_has_error(),
    {
        Descriptor {
            status: Status::new_transmit(),
            buffer_lengths: BufferLengths::new_transmit(),
            buffer1: None,
            next_descriptor: None,
        }
    }

    /// Fresh receive descriptor: default words, null pointers.
    pub fn new_receive() -> (r: Descriptor)
        ensures
            r.wf(),
            r.role() == Role::Receive,
            r.status().bits() == 0,
            r.buffer_lengths().bits()
                == crate::ethernet::buffer_lengths::RX_SECOND_ADDRESS_CHAINED_MASK,
            r.buffer_lengths().spec_buffer1_len() == 0,
            r.buffer1() is None,
            r.next_descriptor() is None,
            !r.spec_is_owned(),
            !r.spec_end_of_ring(),
            !r.spec_has_error(),
            !r.status().spec_is_start_of_frame(),
            !r.status().spec_is_end_of_frame(),
    {
        Descriptor {
            status: Status::new_receive(),
            buffer_lengths: BufferLengths::new_receive(),
            buffer1: None,
            next_descriptor: None,
        }
    }

    /// Does the DMA engine currently hold the entry?
    pub fn is_owned(&self) -> (r: bool)
        ensures
            r == self.spec_is_owned(),
    {
        self.status.is_owned()
    }

    /// Hand the entry to the DMA engine by raising the ownership token.
    pub fn set_owned(&mut self)
        ensures
            final(self).status().bits() == old(self).status().bits()
                | crate::ethernet::status::OWN_MASK,
            final(self).status().role() == old(self).status().role(),
            final(self).spec_is_owned(),
            final(self).spec_end_of_ring() == old(self).spec_end_of_ring(),
            final(self).spec_has_error() == old(self).spec_has_error(),
            final(self).buffer_lengths() == old(self).buffer_lengths(),
            final(self).buffer1() == old(self).buffer1(),
            final(self).next_descriptor() == old(self).next_descriptor(),
    {
        self.status.set_owned();
    }

    /// Did the engine flag a problem with this completed entry?
    ///
    /// Meaningful only while the entry is software-owned.
    pub fn has_error(&self) -> (r: bool)
        requires
            !self.spec_is_owned(),
        ensures
            r == self.spec_has_error(),
    {
        self.status.has_error()
    }

    /// Length of a completed receive frame, `None` when the frame did not
    /// land whole in this one buffer (see [`Status::get_frame_len`]).
    pub fn get_frame_len(&self) -> (r: Option<usize>)
        requires
            self.role() == Role::Receive,
        ensures
            r is Some <==> (self.status().spec_is_start_of_frame()
                && self.status().spec_is_end_of_frame()),
            r is Some ==> r->0 == self.status().spec_frame_len(),
    {
        self.status.get_frame_len()
    }

    /// Mark the last transmit descriptor of the ring.
    pub fn set_transmit_end_of_ring(&mut self)
        requires
            old(self).role() == Role::Transmit,
        ensures
            final(self).status().bits() == old(self).status().bits()
                | crate::ethernet::status::TX_END_OF_RING_MASK,
            final(self).status().role() == old(self).status().role(),
            final(self).spec_end_of_ring(),
            final(self).spec_is_owned() == old(self).spec_is_owned(),
            final(self).buffer_lengths() == old(self).buffer_lengths(),
            final(self).buffer1() == old(self).buffer1(),
            final(self).next_descriptor() == old(self).next_descriptor(),
    {
        self.status.set_transmit_end_of_ring();
    }

    /// Mark the last receive descriptor of the ring.
    pub fn set_receive_end_of_ring(&mut self)
        requires
            old(self).role() == Role::Receive,
            old(self).wf(),
        ensures
            final(self).buffer_lengths().bits() == old(self).buffer_lengths().bits()
                | crate::ethernet::buffer_lengths::RX_END_OF_RING_MASK,
            final(self).buffer_lengths().role() == old(self).buffer_lengths().role(),
            final(self).spec_end_of_ring(),
            final(self).buffer_lengths().spec_buffer1_len()
                == old(self).buffer_lengths().spec_buffer1_len(),
            final(self).status() == old(self).status(),
            final(self).buffer1() == old(self).buffer1(),
            final(self).next_descriptor() == old(self).next_descriptor(),
    {
        self.buffer_lengths.set_receive_end_of_ring();
    }

    /// Point the descriptor at its buffer and record the buffer's length.
    ///
    /// Fails — touching nothing — exactly when `len` does not fit the
    /// 13-bit length field.
    pub fn set_buffer1(&mut self, buf: usize, len: usize) -> (r: Result<(), SetBufferError>)
        ensures
            len >= 0x1FFF ==> r == Result::<(), SetBufferError>::Err(
                SetBufferError::TooLongBufferLen,
            ) && *final(self) == *old(self),
            len < 0x1FFF ==> r == Result::<(), SetBufferError>::Ok(())
                && final(self).buffer1() == Some(buf)
                && final(self).buffer_lengths().spec_buffer1_len() == len
                && final(self).buffer_lengths().bits()
                    == (old(self).buffer_lengths().bits()
                        & !crate::ethernet::buffer_lengths::BUFFER1_LEN_MASK) | (len as u32)
                && final(self).buffer_lengths().role() == old(self).buffer_lengths().role()
                && final(self).buffer_lengths().spec_receive_end_of_ring()
                    == old(self).buffer_lengths().spec_receive_end_of_ring()
                && final(self).status() == old(self).status()
                && final(self).next_descriptor() == old(self).next_descriptor(),
    {
        self.set_buffer1_len(len)?;
        self.buffer1 = Some(buf);

        Ok(())
    }

    /// Record the buffer's length, preserving the rest of the length word.
    ///
    /// Fails — touching nothing — exactly when `len` does not fit the
    /// 13-bit length field.
    pub fn set_buffer1_len(&mut self, len: usize) -> (r: Result<(), SetBufferError>)
        ensures
            len >= 0x1FFF ==> r == Result::<(), SetBufferError>::Err(
                SetBufferError::TooLongBufferLen,
            ) && *final(self) == *old(self),
            len < 0x1FFF ==> r == Result::<(), SetBufferError>::Ok(())
                && final(self).buffer_lengths().spec_buffer1_len() == len
                && final(self).buffer_lengths().bits()
                    == (old(self).buffer_lengths().bits()
                        & !crate::ethernet::buffer_lengths::BUFFER1_LEN_MASK) | (len as u32)
                && final(self).buffer_lengths().role() == old(self).buffer_lengths().role()
                && final(self).buffer_lengths().spec_receive_end_of_ring()
                    == old(self).buffer_lengths().spec_receive_end_of_ring()
                && final(self).status() == old(self).status()
                && final(self).buffer1() == old(self).buffer1()
                && final(self).next_descriptor() == old(self).next_descriptor(),
    {
        self.buffer_lengths.set_buffer1_len(len)?;

        Ok(())
    }

    /// Model of the transmit engine finishing this entry: the ownership
    /// token is cleared and the error summary written, the rest of the
    /// status word stays as software shaped it.
    pub fn complete_transmit(&mut self, error: bool)
        requires
            old(self).role() == Role::Transmit,
        ensures
            !final(self).spec_is_owned(),
            final(self).spec_has_error() == error,
            final(self).spec_end_of_ring() == old(self).spec_end_of_ring(),
            final(self).status().role() == old(self).status().role(),
            final(self).buffer_lengths() == old(self).buffer_lengths(),
            final(self).buffer1() == old(self).buffer1(),
            final(self).next_descriptor() == old(self).next_descriptor(),
            old(self).wf() ==> final(self).wf(),
    {
        let status = self.status.transmit_completed(error);
        self.status = status;
    }

    /// Replace the status word wholesale, as the DMA engine does when it
    /// completes an entry it holds. Models the engine's side of the shared
    /// memory; simulation and the hardware front end drive it.
    pub fn write_status(&mut self, status: Status)
        requires
            status.role() == old(self).role(),
        ensures
            final(self).status() == status,
            final(self).buffer_lengths() == old(self).buffer_lengths(),
            final(self).buffer1() == old(self).buffer1(),
            final(self).next_descriptor() == old(self).next_descriptor(),
            old(self).wf() ==> final(self).wf(),
    {
        self.status = status;
    }

    /// Write the link to the next descriptor of the chain; used only while
    /// the ring is being built.
    pub fn set_next_descriptor(&mut self, next: usize)
        ensures
            final(self).next_descriptor() == Some(next),
            final(self).status() == old(self).status(),
            final(self).buffer_lengths() == old(self).buffer_lengths(),
            final(self).buffer1() == old(self).buffer1(),
    {
        self.next_descriptor = Some(next);
    }
}

} // verus!
