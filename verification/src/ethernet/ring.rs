//! Ring entries: one descriptor plus the fixed-size buffer it describes.

use vstd::prelude::*;

use crate::ethernet::MAX_TRANSMISSION_UNIT;
use crate::ethernet::descriptor::Descriptor;
use crate::ethernet::status::Status;
use crate::ethernet::transmit::TransmitError;

verus! {

/// The direction a descriptor (and the ring that holds it) works in.
///
/// The bit layout of a descriptor is the same for both directions; the
/// meaning of some bits differs, so every descriptor carries its role and
/// the role-specific operations demand the matching tag.
#[derive(Clone, Copy, Debug, PartialEq, Eq, Structural)]
pub enum Role {
    Receive,
    Transmit,
}

/// One slot of a ring: a descriptor and the buffer it points at.
///
/// The buffer is shared with the DMA engine; which side may touch it is
/// decided by the descriptor's ownership token alone. On top of the token
/// the entry keeps a `claimed` marker: raised while software has handed the
/// buffer out as a frame capability, so that no second claim can be made
/// before the first one is released. A claimed entry is always
/// software-owned; the two sides never hold an entry at once.
#[derive(Debug)]
pub struct RingEntry {
    descriptor: Descriptor,
    buffer: Vec<u8>,
    claimed: bool,
}

impl RingEntry {
    /// The descriptor of this slot.
    pub closed spec fn descriptor(self) -> Descriptor {
        self.descriptor
    }

    /// The bytes of this slot's buffer.
    pub closed spec fn buffer(self) -> Seq<u8> {
        self.buffer@
    }

    /// Software has handed this buffer out as a frame capability.
    pub closed spec fn spec_claimed(self) -> bool {
        self.claimed
    }

    /// The direction of this slot.
    pub open spec fn role(self) -> Role {
        self.descriptor().role()
    }

    /// The DMA engine holds this slot.
    pub open spec fn spec_is_owned(self) -> bool {
        self.descriptor().spec_is_owned()
    }

    /// A completed receive slot reports a frame that fits its buffer: the
    /// engine never writes more than the buffer length it was given, so a
    /// slot it has handed back with a whole frame carries a sane length.
    pub open spec fn completed_sane(self) -> bool {
        (!self.spec_is_owned() && self.descriptor().status().spec_is_start_of_frame()
            && self.descriptor().status().spec_is_end_of_frame())
            ==> self.descriptor().status().spec_frame_len() <= self.buffer().len()
    }

    /// A slot is well formed when its buffer has the fixed frame capacity,
    /// its descriptor words agree on the direction, and a claimed slot is
    /// software-owned — the exclusivity of the ownership token.
    pub open spec fn wf(self) -> bool {
        &&& self.buffer().len() == MAX_TRANSMISSION_UNIT
        &&& self.descriptor().wf()
        &&& self.spec_claimed() ==> !self.spec_is_owned()
    }

    /// Fresh transmit slot: default descriptor, zeroed buffer, no claim.
    pub fn new_transmit() -> (r: RingEntry)
        ensures
            r.wf(),
            r.role() == Role::Transmit,
            !r.spec_is_owned(),
            !r.spec_claimed(),
            !r.descriptor().spec_end_of_ring(),
            !r.descriptor().spec_has_error(),
            r.descriptor().buffer1() is None,
            r.descriptor().next_descriptor() is None,
            r.buffer() == Seq::<u8>::new(MAX_TRANSMISSION_UNIT as nat, |i: int| 0u8),
    {
        let buffer = vec![0u8; MAX_TRANSMISSION_UNIT];
        assert(buffer@ =~= Seq::<u8>::new(MAX_TRANSMISSION_UNIT as nat, |i: int| 0u8));
        RingEntry { descriptor: Descriptor::new_transmit(), buffer, claimed: false }
    }

    /// Fresh receive slot: default descriptor, zeroed buffer, no claim.
    pub fn new_receive() -> (r: RingEntry)
        ensures
            r.wf(),
            r.role() == Role::Receive,
            !r.spec_is_owned(),
            !r.spec_claimed(),
            !r.descriptor().spec_end_of_ring(),
            !r.descriptor().spec_has_error(),
            !r.descriptor().status().spec_is_start_of_frame(),
            !r.descriptor().status().spec_is_end_of_frame(),
            r.completed_sane(),
            r.descriptor().buffer1() is None,
            r.descriptor().next_descriptor() is None,
            r.buffer() == Seq::<u8>::new(MAX_TRANSMISSION_UNIT as nat, |i: int| 0u8),
    {
        let buffer = vec![0u8; MAX_TRANSMISSION_UNIT];
        assert(buffer@ =~= Seq::<u8>::new(MAX_TRANSMISSION_UNIT as nat, |i: int| 0u8));
        RingEntry { descriptor: Descriptor::new_receive(), buffer, claimed: false }
    }

    /// Point the descriptor at this slot's own buffer, full capacity.
    ///
    /// Called once per slot while the ring is being built, after the slot
    /// has reached its place; `index` is the slot's position in the ring,
    /// which stands for the buffer's address.
    pub fn init(&mut self, index: usize)
        requires
            !old(self).spec_is_owned(),
            old(self).wf(),
        ensures
            final(self).descriptor().buffer1() == Some(index),
            final(self).descriptor().buffer_lengths().spec_buffer1_len()
                == MAX_TRANSMISSION_UNIT,
            final(self).descriptor().buffer_lengths().spec_receive_end_of_ring()
                == old(self).descriptor().buffer_lengths().spec_receive_end_of_ring(),
            final(self).descriptor().status() == old(self).descriptor().status(),
            final(self).descriptor().next_descriptor()
                == old(self).descriptor().next_descriptor(),
            final(self).buffer() == old(self).buffer(),
            final(self).spec_claimed() == old(self).spec_claimed(),
            final(self).wf(),
            !final(self).spec_is_owned(),
    {
        let len = self.buffer.len();
        let r = self.descriptor.set_buffer1(index, len);
        proof {
            assert(r is Ok);
        }
    }

    /// Read access to the slot's descriptor.
    pub fn descriptor_ref(&self) -> (r: &Descriptor)
        ensures
            *r == self.descriptor(),
    {
        &self.descriptor
    }

    /// Is the buffer currently handed out as a frame capability?
    pub fn is_claimed(&self) -> (r: bool)
        ensures
            r == self.spec_claimed(),
    {
        self.claimed
    }

    /// Raise the claim marker: software hands the buffer out as a frame
    /// capability. Only a completed, software-owned slot can be claimed.
    pub fn set_claimed(&mut self)
        requires
            !old(self).spec_is_owned(),
            !old(self).spec_claimed(),
        ensures
            final(self).spec_claimed(),
            final(self).descriptor() == old(self).descriptor(),
            final(self).buffer() == old(self).buffer(),
            old(self).wf() ==> final(self).wf(),
    {
        self.claimed = true;
    }

    /// Read access to the slot's buffer.
    pub fn buffer_bytes(&self) -> (r: &Vec<u8>)
        ensures
            r@ == self.buffer(),
    {
        &self.buffer
    }

    /// Overwrite the front of the slot's buffer with `data`, leaving the
    /// bytes behind it as they were.
    pub fn fill_buffer(&mut self, data: &Vec<u8>)
        requires
            data@.len() <= old(self).buffer().len(),
        ensures
            final(self).buffer() == data@ + old(self).buffer().skip(data@.len() as int),
            final(self).descriptor() == old(self).descriptor(),
            final(self).spec_claimed() == old(self).spec_claimed(),
            old(self).wf() ==> final(self).wf(),
    {
        let mut j: usize = 0;
        while j < data.len()
            invariant
                j <= data@.len(),
                data@.len() <= self.buffer().len(),
                self.buffer().len() == old(self).buffer().len(),
                forall|k: int| 0 <= k < j ==> self.buffer()[k] == data@[k],
                forall|k: int|
                    j <= k < self.buffer().len() ==> self.buffer()[k] == old(self).buffer()[k],
                self.descriptor() == old(self).descriptor(),
                self.spec_claimed() == old(self).spec_claimed(),
            decreases data@.len() - j,
        {
            let b = data[j];
            self.buffer[j] = b;
            j = j + 1;
        }
        assert(self.buffer() =~= data@ + old(self).buffer().skip(data@.len() as int));
    }

    /// Replace the status word wholesale, as the DMA engine does when it
    /// completes a slot it holds.
    pub fn write_status(&mut self, status: Status)
        requires
            status.role() == old(self).role(),
            !old(self).spec_claimed(),
        ensures
            final(self).descriptor().status() == status,
            final(self).descriptor().buffer_lengths()
                == old(self).descriptor().buffer_lengths(),
            final(self).descriptor().buffer1() == old(self).descriptor().buffer1(),
            final(self).descriptor().next_descriptor()
                == old(self).descriptor().next_descriptor(),
            final(self).buffer() == old(self).buffer(),
            !final(self).spec_claimed(),
            old(self).wf() ==> final(self).wf(),
    {
        self.descriptor.write_status(status);
    }

    /// Does the DMA engine currently hold this slot?
    pub fn is_owned(&self) -> (r: bool)
        ensures
            r == self.spec_is_owned(),
    {
        self.descriptor.is_owned()
    }

    /// Did the engine flag a problem with this completed slot?
    pub fn has_error(&self) -> (r: bool)
        requires
            !self.spec_is_owned(),
        ensures
            r == self.descriptor().spec_has_error(),
    {
        self.descriptor.has_error()
    }

    /// Hand the slot to the DMA engine: raise the ownership token and give
    /// up any software claim on the buffer.
    pub fn set_owned(&mut self)
        ensures
            final(self).descriptor().status().bits() == old(self).descriptor().status().bits()
                | crate::ethernet::status::OWN_MASK,
            final(self).descriptor().status().role()
                == old(self).descriptor().status().role(),
            final(self).spec_is_owned(),
            !final(self).spec_claimed(),
            final(self).descriptor().spec_end_of_ring()
                == old(self).descriptor().spec_end_of_ring(),
            final(self).descriptor().spec_has_error()
                == old(self).descriptor().spec_has_error(),
            final(self).descriptor().buffer_lengths()
                == old(self).descriptor().buffer_lengths(),
            final(self).descriptor().buffer1() == old(self).descriptor().buffer1(),
            final(self).descriptor().next_descriptor()
                == old(self).descriptor().next_descriptor(),
            final(self).buffer() == old(self).buffer(),
            old(self).wf() ==> final(self).wf(),
    {
        self.descriptor.set_owned();
        self.claimed = false;
    }

    /// Write the link to the next descriptor; used while building the ring.
    pub fn set_next_descriptor(&mut self, next: usize)
        ensures
            final(self).descriptor().next_descriptor() == Some(next),
            final(self).descriptor().status() == old(self).descriptor().status(),
            final(self).descriptor().buffer_lengths()
                == old(self).descriptor().buffer_lengths(),
            final(self).descriptor().buffer1() == old(self).descriptor().buffer1(),
            final(self).buffer() == old(self).buffer(),
            final(self).spec_claimed() == old(self).spec_claimed(),
            old(self).wf() ==> final(self).wf(),
    {
        self.descriptor.set_next_descriptor(next);
    }

    /// Record the length of the frame about to be sent from this slot.
    ///
    /// Fails — touching nothing — with [`TransmitError::FrameTooLong`]
    /// exactly when `len` does not fit the descriptor's 13-bit field.
    pub fn set_buffer1_len(&mut self, len: usize) -> (r: Result<(), TransmitError>)
        requires
            old(self).role() == Role::Transmit,
        ensures
            len >= 0x1FFF ==> r == Result::<(), TransmitError>::Err(
                TransmitError::FrameTooLong,
            ) && *final(self) == *old(self),
            len < 0x1FFF ==> r == Result::<(), TransmitError>::Ok(())
                && final(self).descriptor().buffer_lengths().spec_buffer1_len() == len
                && final(self).descriptor().buffer_lengths().role()
                    == old(self).descriptor().buffer_lengths().role()
                && final(self).descriptor().status() == old(self).descriptor().status()
                && final(self).descriptor().buffer1() == old(self).descriptor().buffer1()
                && final(self).descriptor().next_descriptor()
                    == old(self).descriptor().next_descriptor()
                && final(self).buffer() == old(self).buffer()
                && final(self).spec_claimed() == old(self).spec_claimed(),
            len < 0x1FFF && old(self).wf() ==> final(self).wf(),
    {
        match self.descriptor.set_buffer1_len(len) {
            Ok(()) => Ok(()),
            Err(crate::ethernet::descriptor::SetBufferError::TooLongBufferLen) => {
                Err(TransmitError::FrameTooLong)
            },
        }
    }

    /// Mark this slot as the last transmit descriptor of the ring.
    pub fn set_transmit_end_of_ring(&mut self)
        requires
            old(self).role() == Role::Transmit,
        ensures
            final(self).descriptor().spec_end_of_ring(),
            final(self).spec_is_owned() == old(self).spec_is_owned(),
            final(self).descriptor().buffer_lengths()
                == old(self).descriptor().buffer_lengths(),
            final(self).descriptor().buffer1() == old(self).descriptor().buffer1(),
            final(self).descriptor().next_descriptor()
                == old(self).descriptor().next_descriptor(),
            final(self).descriptor().status().role()
                == old(self).descriptor().status().role(),
            final(self).buffer() == old(self).buffer(),
            final(self).spec_claimed() == old(self).spec_claimed(),
            old(self).wf() ==> final(self).wf(),
    {
        self.descriptor.set_transmit_end_of_ring();
    }

    /// Model of the transmit engine finishing this slot: the ownership token
    /// is cleared and the error summary written; software's claim marker
    /// must be down, since the engine only ever held the slot alone.
    pub fn complete_transmit(&mut self, error: bool)
        requires
            old(self).role() == Role::Transmit,
            !old(self).spec_claimed(),
        ensures
            !final(self).spec_is_owned(),
            !final(self).spec_claimed(),
            final(self).descriptor().spec_has_error() == error,
            final(self).descriptor().spec_end_of_ring()
                == old(self).descriptor().spec_end_of_ring(),
            final(self).role() == old(self).role(),
            final(self).descriptor().buffer_lengths()
                == old(self).descriptor().buffer_lengths(),
            final(self).descriptor().buffer1() == old(self).descriptor().buffer1(),
            final(self).descriptor().next_descriptor()
                == old(self).descriptor().next_descriptor(),
            final(self).buffer() == old(self).buffer(),
            old(self).wf() ==> final(self).wf(),
    {
        self.descriptor.complete_transmit(error);
    }

    /// Length of the frame the engine completed into this slot, `None` when
    /// it did not land whole in the one buffer.
    pub fn get_buffer1_len(&self) -> (r: Option<usize>)
        requires
            self.role() == Role::Receive,
        ensures
            r is Some <==> (self.descriptor().status().spec_is_start_of_frame()
                && self.descriptor().status().spec_is_end_of_frame()),
            r is Some ==> r->0 == self.descriptor().status().spec_frame_len(),
    {
        self.descriptor.get_frame_len()
    }

    /// Mark this slot as the last receive descriptor of the ring.
    pub fn set_receive_end_of_ring(&mut self)
        requires
            old(self).role() == Role::Receive,
            old(self).descriptor().wf(),
        ensures
            final(self).descriptor().spec_end_of_ring(),
            final(self).spec_is_owned() == old(self).spec_is_owned(),
            final(self).descriptor().status() == old(self).descriptor().status(),
            final(self).descriptor().buffer_lengths().spec_buffer1_len()
                == old(self).descriptor().buffer_lengths().spec_buffer1_len(),
            final(self).descriptor().buffer_lengths().role()
                == old(self).descriptor().buffer_lengths().role(),
            final(self).descriptor().buffer1() == old(self).descriptor().buffer1(),
            final(self).descriptor().next_descriptor()
                == old(self).descriptor().next_descriptor(),
            final(self).buffer() == old(self).buffer(),
            final(self).spec_claimed() == old(self).spec_claimed(),
            old(self).wf() ==> final(self).wf(),
    {
        self.descriptor.set_receive_end_of_ring();
    }
}

/// The slot reached after following `steps` next-descriptor links from slot
/// 0 of the ring; −1 once a link is null or out of range.
pub open spec fn follow_links(s: Seq<RingEntry>, steps: nat) -> int
    decreases steps,
{
    if steps == 0 {
        0
    } else {
        let from = follow_links(s, (steps - 1) as nat);
        if 0 <= from < s.len() {
            match s[from].descriptor().next_descriptor() {
                Some(n) => n as int,
                None => -1,
            }
        } else {
            -1
        }
    }
}

/// In a ring whose slots each link to their successor (the last wrapping to
/// the first), fewer steps than the ring's size land exactly that many slots
/// in: no link escapes the ring and none wraps early.
pub proof fn lemma_follow_links_prefix(s: Seq<RingEntry>, steps: nat)
    requires
        s.len() >= 1,
        s.len() <= usize::MAX,
        steps < s.len(),
        forall|i: int|
            0 <= i < s.len() ==> (#[trigger] s[i].descriptor().next_descriptor()) == Some(
                (if i == s.len() - 1 {
                    0int
                } else {
                    i + 1
                }) as usize,
            ),
    ensures
        follow_links(s, steps) == steps,
    decreases steps,
{
    if steps > 0 {
        lemma_follow_links_prefix(s, (steps - 1) as nat);
    }
}

/// The ownership token is exclusive: no well-formed slot is ever held by
/// software (an outstanding frame claim) and by the DMA engine (the token
/// raised) at the same time, however the two sides have toggled it.
pub proof fn lemma_ownership_exclusive(e: RingEntry)
    requires
        e.wf(),
    ensures
        !(e.spec_claimed() && e.spec_is_owned()),
{
}

} // verus!
