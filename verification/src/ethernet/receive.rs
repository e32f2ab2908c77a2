//! Receive side: the ring that turns the DMA engine's completion signals
//! into frame capabilities, and the claim/recycle protocol on its slots.

use vstd::prelude::*;

use crate::ethernet::MAX_TRANSMISSION_UNIT;
use crate::ethernet::ring::{RingEntry, Role};
use crate::ethernet::status::Status;

verus! {

/// Outcome of a failed claim attempt.
#[derive(Clone, Copy, Debug, PartialEq, Eq, Structural)]
pub enum ReceiveError {
    /// The slot is still held by the DMA engine: nothing arrived yet, retry
    /// on a later poll.
    BufferEmpty,
    /// The frame did not land whole in the one buffer; the slot was recycled
    /// and the frame silently dropped.
    FrameTruncated,
    /// The engine flagged a framing, CRC or overflow problem; the slot was
    /// recycled and the frame silently dropped.
    DMAError,
}

impl RingEntry {
    /// Claim this completed slot's frame, or recycle the slot.
    ///
    /// - Still engine-held: `BufferEmpty`, the slot is untouched.
    /// - Completed with the error summary set: the slot goes straight back
    ///   to the engine and the caller sees `DMAError`; no data is exposed.
    /// - Completed but not a whole single-buffer frame: recycled likewise,
    ///   `FrameTruncated`.
    /// - Otherwise the frame's length is returned and the slot is marked
    ///   claimed; it stays software-owned until the claim is released.
    pub fn receive_frame(&mut self) -> (r: Result<usize, ReceiveError>)
        requires
            old(self).role() == Role::Receive,
            old(self).wf(),
            !old(self).spec_claimed(),
        ensures
            final(self).wf(),
            final(self).buffer() == old(self).buffer(),
            final(self).descriptor().buffer_lengths()
                == old(self).descriptor().buffer_lengths(),
            final(self).descriptor().buffer1() == old(self).descriptor().buffer1(),
            final(self).descriptor().next_descriptor()
                == old(self).descriptor().next_descriptor(),
            final(self).role() == old(self).role(),
            old(self).completed_sane() ==> final(self).completed_sane(),
            old(self).spec_is_owned() ==> r == Result::<usize, ReceiveError>::Err(
                ReceiveError::BufferEmpty,
            ) && *final(self) == *old(self),
            !old(self).spec_is_owned() && old(self).descriptor().spec_has_error() ==> r
                == Result::<usize, ReceiveError>::Err(ReceiveError::DMAError)
                && final(self).spec_is_owned() && !final(self).spec_claimed()
                && final(self).descriptor().status().bits()
                    == old(self).descriptor().status().bits()
                    | crate::ethernet::status::OWN_MASK,
            !old(self).spec_is_owned() && !old(self).descriptor().spec_has_error()
                && !(old(self).descriptor().status().spec_is_start_of_frame()
                && old(self).descriptor().status().spec_is_end_of_frame()) ==> r
                == Result::<usize, ReceiveError>::Err(ReceiveError::FrameTruncated)
                && final(self).spec_is_owned() && !final(self).spec_claimed()
                && final(self).descriptor().status().bits()
                    == old(self).descriptor().status().bits()
                    | crate::ethernet::status::OWN_MASK,
            !old(self).spec_is_owned() && !old(self).descriptor().spec_has_error()
                && old(self).descriptor().status().spec_is_start_of_frame()
                && old(self).descriptor().status().spec_is_end_of_frame() ==> r
                == Result::<usize, ReceiveError>::Ok(
                old(self).descriptor().status().spec_frame_len() as usize,
            ) && final(self).spec_claimed() && !final(self).spec_is_owned()
                && final(self).descriptor() == old(self).descriptor(),
    {
        if self.is_owned() {
            return Err(ReceiveError::BufferEmpty);
        }

        if self.has_error() {
            self.set_owned();
            return Err(ReceiveError::DMAError);
        }

        // A frame that did not fit whole into the one buffer is dropped:
        // recycle the slot rather than expose a truncated frame.
        let length = match self.get_buffer1_len() {
            Some(x) => x,
            None => {
                self.set_owned();
                return Err(ReceiveError::FrameTruncated);
            },
        };

        self.set_claimed();
        Ok(length)
    }
}

/// A claimed receive frame: the bytes the engine delivered into one slot,
/// bounded to the reported frame length, together with the slot they came
/// from. The slot stays unavailable to the engine until the capability is
/// given back through [`ReceiveRing::release_frame`].
#[derive(Debug)]
pub struct ReceiveFrame {
    entry_index: usize,
    bytes: Vec<u8>,
}

impl ReceiveFrame {
    /// The slot this frame was claimed from.
    pub closed spec fn spec_entry_index(&self) -> usize {
        self.entry_index
    }

    /// The delivered bytes.
    pub closed spec fn bytes(self) -> Seq<u8> {
        self.bytes@
    }

    /// The slot this frame was claimed from.
    #[verifier::when_used_as_spec(spec_entry_index)]
    pub fn entry_index(&self) -> (r: usize)
        ensures
            r == self.spec_entry_index(),
    {
        self.entry_index
    }

    /// Length the engine reported for this frame.
    pub fn len(&self) -> (r: usize)
        ensures
            r == self.bytes().len(),
    {
        self.bytes.len()
    }

    /// The delivered bytes.
    pub fn as_bytes(&self) -> (r: &Vec<u8>)
        ensures
            r@ == self.bytes(),
    {
        &self.bytes
    }
}

/// The receive ring: a circle of slots the DMA engine fills with frames and
/// software drains, one cursor position per claim attempt.
#[derive(Debug)]
pub struct ReceiveRing {
    entries: Vec<RingEntry>,
    /// Index of the slot the next claim attempt will examine.
    next_entry: usize,
}

impl ReceiveRing {
    /// The slots of the ring.
    pub closed spec fn entries(self) -> Seq<RingEntry> {
        self.entries@
    }

    /// Index of the slot the next claim attempt will examine.
    pub closed spec fn spec_next_entry(&self) -> usize {
        self.next_entry
    }

    /// The ring's invariant: at least one slot, the cursor in range, and
    /// every slot in its place.
    pub open spec fn wf(self) -> bool {
        &&& self.entries().len() >= 1
        &&& (self.spec_next_entry() as int) < self.entries().len()
        &&& forall|i: int| 0 <= i < self.entries().len() ==> #[trigger] entry_ok(
            self.entries(),
            i,
        )
    }

    /// Number of slots.
    pub fn len(&self) -> (r: usize)
        ensures
            r == self.entries().len(),
    {
        self.entries.len()
    }

    /// Index of the slot the next claim attempt will examine.
    #[verifier::when_used_as_spec(spec_next_entry)]
    pub fn next_entry(&self) -> (r: usize)
        ensures
            r == self.spec_next_entry(),
    {
        self.next_entry
    }

    /// Read access to one slot.
    pub fn entry(&self, index: usize) -> (r: &RingEntry)
        requires
            index < self.entries().len(),
        ensures
            *r == self.entries()[index as int],
    {
        &self.entries[index]
    }

    /// Build the receive ring over its slots: point every descriptor at its
    /// buffer, link the descriptors into a circle, mark the last one
    /// end-of-ring, and grant every slot to the DMA engine.
    ///
    /// The caller registers the ring's base with the engine afterwards; the
    /// ring itself is pure state.
    pub fn new(entries: Vec<RingEntry>) -> (r: ReceiveRing)
        requires
            entries@.len() >= 1,
            forall|i: int|
                0 <= i < entries@.len() ==> {
                    let e = #[trigger] entries@[i];
                    e.wf() && e.role() == Role::Receive && !e.spec_is_owned()
                        && !e.spec_claimed() && !e.descriptor().spec_end_of_ring()
                        && e.completed_sane()
                },
        ensures
            r.wf(),
            r.spec_next_entry() == 0,
            r.entries().len() == entries@.len(),
            forall|i: int|
                0 <= i < entries@.len() ==> (#[trigger] r.entries()[i]).spec_is_owned()
                    && !r.entries()[i].spec_claimed() && r.entries()[i].buffer()
                    == entries@[i].buffer(),
    {
        let mut result = ReceiveRing { entries, next_entry: 0 };

        result.init_ring_entry_buffers();
        result.chain_entry_descriptors();

        // Grant every slot to the engine, so it may start filling them.
        let n = result.entries.len();
        let mut i: usize = 0;
        while i < n
            invariant
                n == result.entries().len(),
                i <= n,
                result.spec_next_entry() == 0,
                forall|j: int| 0 <= j < n ==> #[trigger] entry_ok(result.entries(), j),
                forall|j: int|
                    0 <= j < i ==> (#[trigger] result.entries()[j]).spec_is_owned()
                        && !result.entries()[j].spec_claimed(),
                forall|j: int|
                    i <= j < n ==> !(#[trigger] result.entries()[j]).spec_is_owned()
                        && !result.entries()[j].spec_claimed(),
                forall|j: int|
                    0 <= j < n ==> (#[trigger] result.entries()[j]).buffer()
                        == entries@[j].buffer(),
            decreases n - i,
        {
            let ghost prev = result;
            proof {
                assert(entry_ok(prev.entries(), i as int));
            }
            result.entries[i].set_owned();
            proof {
                lemma_entry_ok_stable(prev.entries(), result.entries(), i as int);
            }
            i = i + 1;
        }

        result
    }

    /// Point every slot's descriptor at the slot's own buffer.
    fn init_ring_entry_buffers(&mut self)
        requires
            forall|i: int|
                0 <= i < old(self).entries().len() ==> {
                    let e = #[trigger] old(self).entries()[i];
                    e.wf() && !e.spec_is_owned()
                },
        ensures
            final(self).entries().len() == old(self).entries().len(),
            final(self).spec_next_entry() == old(self).spec_next_entry(),
            forall|i: int|
                0 <= i < old(self).entries().len() ==> {
                    let e = #[trigger] final(self).entries()[i];
                    let o = old(self).entries()[i];
                    e.descriptor().buffer1() == Some(i as usize)
                        && e.descriptor().buffer_lengths().spec_buffer1_len()
                        == MAX_TRANSMISSION_UNIT
                        && e.descriptor().buffer_lengths().spec_receive_end_of_ring()
                            == o.descriptor().buffer_lengths().spec_receive_end_of_ring()
                        && e.descriptor().status() == o.descriptor().status()
                        && e.descriptor().next_descriptor() == o.descriptor().next_descriptor()
                        && e.buffer() == o.buffer() && e.spec_claimed() == o.spec_claimed()
                        && e.wf() && !e.spec_is_owned()
                },
    {
        let n = self.entries.len();
        let mut i: usize = 0;
        while i < n
            invariant
                n == self.entries().len(),
                i <= n,
                self.spec_next_entry() == old(self).spec_next_entry(),
                forall|j: int|
                    0 <= j < n ==> {
                        let e = #[trigger] old(self).entries()[j];
                        e.wf() && !e.spec_is_owned()
                    },
                forall|j: int|
                    i <= j < n ==> #[trigger] self.entries()[j] == old(self).entries()[j],
                forall|j: int|
                    0 <= j < i ==> {
                        let e = #[trigger] self.entries()[j];
                        let o = old(self).entries()[j];
                        e.descriptor().buffer1() == Some(j as usize)
                            && e.descriptor().buffer_lengths().spec_buffer1_len()
                            == MAX_TRANSMISSION_UNIT
                            && e.descriptor().buffer_lengths().spec_receive_end_of_ring()
                                == o.descriptor().buffer_lengths().spec_receive_end_of_ring()
                            && e.descriptor().status() == o.descriptor().status()
                            && e.descriptor().next_descriptor()
                                == o.descriptor().next_descriptor()
                            && e.buffer() == o.buffer() && e.spec_claimed() == o.spec_claimed()
                            && e.wf() && !e.spec_is_owned()
                    },
            decreases n - i,
        {
            self.entries[i].init(i);
            i = i + 1;
        }
    }

    /// Link every descriptor to its successor; the last one wraps to the
    /// first and carries the end-of-ring mark.
    fn chain_entry_descriptors(&mut self)
        requires
            old(self).entries().len() >= 1,
            forall|i: int|
                0 <= i < old(self).entries().len() ==> {
                    let e = #[trigger] old(self).entries()[i];
                    e.wf() && e.role() == Role::Receive
                        && !e.descriptor().spec_end_of_ring()
                },
        ensures
            final(self).entries().len() == old(self).entries().len(),
            final(self).spec_next_entry() == old(self).spec_next_entry(),
            forall|i: int|
                0 <= i < old(self).entries().len() ==> {
                    let e = #[trigger] final(self).entries()[i];
                    let o = old(self).entries()[i];
                    e.descriptor().next_descriptor() == Some(
                        (if i == old(self).entries().len() - 1 {
                            0int
                        } else {
                            i + 1
                        }) as usize,
                    ) && (e.descriptor().spec_end_of_ring() <==> i == old(self).entries().len()
                        - 1) && e.descriptor().status() == o.descriptor().status()
                        && e.descriptor().buffer_lengths().spec_buffer1_len()
                            == o.descriptor().buffer_lengths().spec_buffer1_len()
                        && e.descriptor().buffer1() == o.descriptor().buffer1() && e.buffer()
                        == o.buffer() && e.spec_claimed() == o.spec_claimed() && e.wf()
                        && e.role() == o.role()
                },
    {
        let n = self.entries.len();
        let mut i: usize = 0;
        while i < n
            invariant
                n == self.entries().len(),
                n >= 1,
                i <= n,
                self.spec_next_entry() == old(self).spec_next_entry(),
                forall|j: int|
                    0 <= j < n ==> {
                        let e = #[trigger] old(self).entries()[j];
                        e.wf() && e.role() == Role::Receive
                            && !e.descriptor().spec_end_of_ring()
                    },
                forall|j: int|
                    i <= j < n ==> #[trigger] self.entries()[j] == old(self).entries()[j],
                forall|j: int|
                    0 <= j < i ==> {
                        let e = #[trigger] self.entries()[j];
                        let o = old(self).entries()[j];
                        e.descriptor().next_descriptor() == Some(
                            (if j == n - 1 {
                                0int
                            } else {
                                j + 1
                            }) as usize,
                        ) && !e.descriptor().spec_end_of_ring() && e.descriptor().status()
                            == o.descriptor().status()
                            && e.descriptor().buffer_lengths().spec_buffer1_len()
                                == o.descriptor().buffer_lengths().spec_buffer1_len()
                            && e.descriptor().buffer1() == o.descriptor().buffer1()
                            && e.buffer() == o.buffer() && e.spec_claimed() == o.spec_claimed()
                            && e.wf() && e.role() == o.role()
                    },
            decreases n - i,
        {
            let next = if i + 1 == n {
                0
            } else {
                i + 1
            };
            self.entries[i].set_next_descriptor(next);
            i = i + 1;
        }

        // The engine must wrap from the last slot back to the first.
        self.entries[n - 1].set_receive_end_of_ring();
    }

    /// Claim the frame at the cursor, if the engine has completed one there.
    ///
    /// A slot the engine still holds — or one whose earlier claim is still
    /// outstanding — yields `BufferEmpty` and leaves the cursor alone. Every
    /// terminal outcome (a claimed frame, or an error that recycles the
    /// slot) advances the cursor by one, wrapping, so no single slot can
    /// starve the ring.
    pub fn receive_frame(&mut self) -> (r: Result<ReceiveFrame, ReceiveError>)
        requires
            old(self).wf(),
        ensures
            final(self).wf(),
            final(self).entries().len() == old(self).entries().len(),
            ({
                let idx = old(self).spec_next_entry() as int;
                let e = old(self).entries()[idx];
                let n = old(self).entries().len() as int;
                let advanced = final(self).spec_next_entry() as int == (if idx + 1 == n {
                    0int
                } else {
                    idx + 1
                });
                &&& (forall|j: int|
                    0 <= j < n && j != idx ==> #[trigger] final(self).entries()[j]
                        == old(self).entries()[j])
                &&& (e.spec_claimed() || e.spec_is_owned()) ==> r
                    == Result::<ReceiveFrame, ReceiveError>::Err(ReceiveError::BufferEmpty)
                    && final(self).entries() == old(self).entries()
                    && final(self).spec_next_entry() == old(self).spec_next_entry()
                &&& !e.spec_claimed() && !e.spec_is_owned() && e.descriptor().spec_has_error()
                    ==> r == Result::<ReceiveFrame, ReceiveError>::Err(ReceiveError::DMAError)
                    && final(self).entries()[idx].spec_is_owned()
                    && !final(self).entries()[idx].spec_claimed() && advanced
                &&& !e.spec_claimed() && !e.spec_is_owned() && !e.descriptor().spec_has_error()
                    && !(e.descriptor().status().spec_is_start_of_frame()
                    && e.descriptor().status().spec_is_end_of_frame()) ==> r
                    == Result::<ReceiveFrame, ReceiveError>::Err(ReceiveError::FrameTruncated)
                    && final(self).entries()[idx].spec_is_owned()
                    && !final(self).entries()[idx].spec_claimed() && advanced
                &&& !e.spec_claimed() && !e.spec_is_owned() && !e.descriptor().spec_has_error()
                    && e.descriptor().status().spec_is_start_of_frame()
                    && e.descriptor().status().spec_is_end_of_frame() ==> (r
                    matches Result::Ok(frame) && frame.spec_entry_index() == idx
                    && frame.bytes() == e.buffer().take(
                    e.descriptor().status().spec_frame_len() as int,
                ) && final(self).entries()[idx].spec_claimed()
                    && !final(self).entries()[idx].spec_is_owned()
                    && final(self).entries()[idx].buffer() == e.buffer() && advanced)
            }),
    {
        let idx = self.next_entry;

        // An outstanding claim keeps the slot unavailable, exactly as if the
        // engine had not completed it yet.
        if self.entries[idx].is_claimed() {
            return Err(ReceiveError::BufferEmpty);
        }
        proof {
            assert(entry_ok(old(self).entries(), idx as int));
        }

        let length = match self.entries[idx].receive_frame() {
            Ok(length) => length,
            Err(ReceiveError::BufferEmpty) => {
                proof {
                    assert(self.entries@ =~= old(self).entries@);
                }
                return Err(ReceiveError::BufferEmpty);
            },
            Err(e) => {
                // The slot was recycled; move on so it cannot starve us.
                proof {
                    lemma_entry_ok_stable(old(self).entries(), self.entries(), idx as int);
                }
                self.increment_next_entry();
                return Err(e);
            },
        };

        // Copy the delivered window out of the slot's buffer.
        let mut bytes: Vec<u8> = Vec::new();
        let buffer = self.entries[idx].buffer_bytes();
        proof {
            let oe = old(self).entries()[idx as int];
            assert(oe.completed_sane());
            assert(length == oe.descriptor().status().spec_frame_len());
            assert(length <= buffer@.len());
            assert(bytes@ =~= buffer@.take(0));
        }
        let mut j: usize = 0;
        while j < length
            invariant
                j <= length,
                length <= buffer@.len(),
                bytes@ == buffer@.take(j as int),
            decreases length - j,
        {
            let b = buffer[j];
            bytes.push(b);
            proof {
                assert(bytes@ =~= buffer@.take(j + 1int));
            }
            j = j + 1;
        }

        proof {
            lemma_entry_ok_stable(old(self).entries(), self.entries(), idx as int);
        }
        self.increment_next_entry();

        Ok(ReceiveFrame { entry_index: idx, bytes })
    }

    /// Give a claimed frame back: the slot returns to the DMA engine, ready
    /// for the next reception. Consumes the capability, so a frame can be
    /// released exactly once.
    pub fn release_frame(&mut self, frame: ReceiveFrame)
        requires
            old(self).wf(),
            frame.spec_entry_index() < old(self).entries().len(),
            old(self).entries()[frame.spec_entry_index() as int].spec_claimed(),
        ensures
            final(self).wf(),
            final(self).entries().len() == old(self).entries().len(),
            final(self).spec_next_entry() == old(self).spec_next_entry(),
            forall|j: int|
                0 <= j < old(self).entries().len() && j != frame.spec_entry_index() as int
                    ==> #[trigger] final(self).entries()[j] == old(self).entries()[j],
            final(self).entries()[frame.spec_entry_index() as int].spec_is_owned(),
            !final(self).entries()[frame.spec_entry_index() as int].spec_claimed(),
            final(self).entries()[frame.spec_entry_index() as int].buffer()
                == old(self).entries()[frame.spec_entry_index() as int].buffer(),
    {
        let idx = frame.entry_index();
        let ghost prev = *self;
        proof {
            assert(entry_ok(prev.entries(), idx as int));
        }
        self.entries[idx].set_owned();
        proof {
            lemma_entry_ok_stable(prev.entries(), self.entries(), idx as int);
        }
    }

    /// Model of the DMA engine completing a reception into slot `index`: it
    /// writes a fresh status word — segment flags, error summary and frame
    /// length — and clears the ownership token. Only a slot the engine holds
    /// can complete, and the engine never reports more bytes than the buffer
    /// it was given.
    pub fn complete_receive(
        &mut self,
        index: usize,
        frame_len: usize,
        first: bool,
        last: bool,
        error: bool,
    )
        requires
            old(self).wf(),
            index < old(self).entries().len(),
            old(self).entries()[index as int].spec_is_owned(),
            frame_len <= MAX_TRANSMISSION_UNIT,
        ensures
            final(self).wf(),
            final(self).entries().len() == old(self).entries().len(),
            final(self).spec_next_entry() == old(self).spec_next_entry(),
            forall|j: int|
                0 <= j < old(self).entries().len() && j != index as int
                    ==> #[trigger] final(self).entries()[j] == old(self).entries()[j],
            ({
                let e = final(self).entries()[index as int];
                &&& !e.spec_is_owned()
                &&& !e.spec_claimed()
                &&& e.descriptor().status().spec_is_start_of_frame() == first
                &&& e.descriptor().status().spec_is_end_of_frame() == last
                &&& e.descriptor().spec_has_error() == error
                &&& e.descriptor().status().spec_frame_len() == frame_len
                &&& e.buffer() == old(self).entries()[index as int].buffer()
            }),
    {
        let status = Status::receive_completed(frame_len, first, last, error);
        let ghost prev = *self;
        proof {
            assert(entry_ok(prev.entries(), index as int));
        }
        self.entries[index].write_status(status);
        proof {
            lemma_entry_ok_stable(prev.entries(), self.entries(), index as int);
        }
    }

    /// Step the cursor by one slot, wrapping at the end of the ring.
    fn increment_next_entry(&mut self)
        requires
            old(self).entries().len() >= 1,
            (old(self).spec_next_entry() as int) < old(self).entries().len(),
        ensures
            final(self).entries() == old(self).entries(),
            final(self).spec_next_entry() as int == (if old(self).spec_next_entry() + 1
                == old(self).entries().len() {
                0int
            } else {
                old(self).spec_next_entry() + 1
            }),
    {
        let n = self.entries.len();
        self.next_entry = self.next_entry + 1;

        if self.next_entry >= n {
            self.next_entry = 0;
        }
    }
}

/// Every well-formed receive ring of N slots is a true circle: exactly one
/// slot carries the end-of-ring mark — the last — and following the
/// next-descriptor links N times from slot 0 returns to slot 0.
pub proof fn lemma_receive_ring_circle(ring: ReceiveRing)
    requires
        ring.wf(),
        ring.entries().len() <= usize::MAX,
    ensures
        forall|i: int|
            0 <= i < ring.entries().len()
                ==> ((#[trigger] ring.entries()[i].descriptor().spec_end_of_ring()) <==> i
                == ring.entries().len() - 1),
        crate::ethernet::ring::follow_links(ring.entries(), ring.entries().len() as nat) == 0,
{
    let s = ring.entries();
    assert forall|i: int|
        0 <= i < s.len() implies ((#[trigger] s[i].descriptor().spec_end_of_ring()) <==> i
        == s.len() - 1) by {
        assert(entry_ok(s, i));
    }
    assert forall|i: int|
        0 <= i < s.len() implies (#[trigger] s[i].descriptor().next_descriptor()) == Some(
        (if i == s.len() - 1 {
            0int
        } else {
            i + 1
        }) as usize,
    ) by {
        assert(entry_ok(s, i));
    }
    crate::ethernet::ring::lemma_follow_links_prefix(s, (s.len() - 1) as nat);
}

/// No slot of a well-formed receive ring is ever held by software (an
/// outstanding frame claim) and by the DMA engine at the same time.
pub proof fn lemma_receive_ownership_exclusive(ring: ReceiveRing, i: int)
    requires
        ring.wf(),
        0 <= i < ring.entries().len(),
    ensures
        !(ring.entries()[i].spec_claimed() && ring.entries()[i].spec_is_owned()),
{
    assert(entry_ok(ring.entries(), i));
}

/// One slot's place in a well-formed receive ring: a receive slot pointing
/// at its own buffer with full capacity, linked to its successor (the last
/// slot wraps to the first and carries the only end-of-ring mark), and sane
/// if completed.
pub open spec fn entry_ok(s: Seq<RingEntry>, i: int) -> bool {
    let e = s[i];
    &&& e.wf()
    &&& e.completed_sane()
    &&& e.role() == Role::Receive
    &&& e.descriptor().buffer1() == Some(i as usize)
    &&& e.descriptor().next_descriptor() == Some(
        (if i == s.len() - 1 {
            0int
        } else {
            i + 1
        }) as usize,
    )
    &&& (e.descriptor().spec_end_of_ring() <==> i == s.len() - 1)
    &&& e.descriptor().buffer_lengths().spec_buffer1_len() == MAX_TRANSMISSION_UNIT
}

/// When one receive slot changes but keeps its place — role, buffer pointer,
/// link, end-of-ring mark, length field, well-formedness and sanity — every
/// slot of the ring is still in its place.
proof fn lemma_entry_ok_stable(prev: Seq<RingEntry>, cur: Seq<RingEntry>, idx: int)
    requires
        forall|j: int| 0 <= j < prev.len() && j != idx ==> #[trigger] cur[j] == prev[j],
        cur.len() == prev.len(),
        forall|j: int| 0 <= j < prev.len() ==> #[trigger] entry_ok(prev, j),
        0 <= idx < prev.len(),
        ({
            let e = cur[idx];
            let o = prev[idx];
            e.wf() && e.completed_sane() && e.role() == o.role() && e.descriptor().buffer1()
                == o.descriptor().buffer1() && e.descriptor().next_descriptor()
                == o.descriptor().next_descriptor() && e.descriptor().spec_end_of_ring()
                == o.descriptor().spec_end_of_ring()
                && e.descriptor().buffer_lengths().spec_buffer1_len()
                == o.descriptor().buffer_lengths().spec_buffer1_len()
        }),
    ensures
        forall|j: int| 0 <= j < cur.len() ==> #[trigger] entry_ok(cur, j),
{
    assert forall|j: int| 0 <= j < cur.len() implies #[trigger] entry_ok(cur, j) by {
        assert(entry_ok(prev, j));
    }
}

} // verus!
