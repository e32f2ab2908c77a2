//! Transmit side: the ring that turns caller-filled buffers into send
//! requests for the DMA engine.

use vstd::prelude::*;

use crate::ethernet::MAX_TRANSMISSION_UNIT;
use crate::ethernet::ring::{RingEntry, Role};

verus! {

/// Outcome of a failed transmit attempt.
#[derive(Clone, Copy, Debug, PartialEq, Eq, Structural)]
pub enum TransmitError {
    /// The next slot is still held by the DMA engine: backpressure, retry
    /// on a later poll or drop the frame.
    BufferFull,
    /// The requested frame length does not fit a descriptor's length field.
    FrameTooLong,
}

impl RingEntry {
    /// Stage this slot for a frame of `length` bytes.
    ///
    /// - Engine-held, or already staged: `BufferFull`, the slot untouched —
    ///   backpressure for the caller.
    /// - `length` over the descriptor's 13-bit field: `FrameTooLong`, the
    ///   slot untouched.
    /// - Otherwise the length is recorded and the slot marked claimed; the
    ///   buffer may now be filled and the slot handed to the engine.
    pub fn prepare_frame(&mut self, length: usize) -> (r: Result<(), TransmitError>)
        requires
            old(self).role() == Role::Transmit,
            old(self).wf(),
        ensures
            final(self).wf(),
            old(self).spec_is_owned() || old(self).spec_claimed() ==> r == Result::<
                (),
                TransmitError,
            >::Err(TransmitError::BufferFull) && *final(self) == *old(self),
            !old(self).spec_is_owned() && !old(self).spec_claimed() && length >= 0x1FFF ==> r
                == Result::<(), TransmitError>::Err(TransmitError::FrameTooLong) && *final(self)
                == *old(self),
            !old(self).spec_is_owned() && !old(self).spec_claimed() && length < 0x1FFF ==> r
                == Result::<(), TransmitError>::Ok(()) && final(self).spec_claimed()
                && !final(self).spec_is_owned()
                && final(self).descriptor().buffer_lengths().spec_buffer1_len() == length
                && final(self).descriptor().status() == old(self).descriptor().status()
                && final(self).descriptor().buffer1() == old(self).descriptor().buffer1()
                && final(self).descriptor().next_descriptor()
                    == old(self).descriptor().next_descriptor()
                && final(self).buffer() == old(self).buffer()
                && final(self).role() == old(self).role()
                && final(self).descriptor().spec_end_of_ring()
                    == old(self).descriptor().spec_end_of_ring(),
    {
        if self.is_owned() || self.is_claimed() {
            return Err(TransmitError::BufferFull);
        }

        self.set_buffer1_len(length)?;
        self.set_claimed();
        Ok(())
    }
}

/// The transmit ring: a circle of slots software fills with frames and the
/// DMA engine drains, one cursor position per send.
#[derive(Debug)]
pub struct TransmitRing {
    entries: Vec<RingEntry>,
    /// Index of the slot the next send will use.
    next_entry: usize,
}

impl TransmitRing {
    /// The slots of the ring.
    pub closed spec fn entries(self) -> Seq<RingEntry> {
        self.entries@
    }

    /// Index of the slot the next send will use.
    pub closed spec fn spec_next_entry(&self) -> usize {
        self.next_entry
    }

    /// The ring's invariant: at least one slot, the cursor in range, and
    /// every slot in its place.
    pub open spec fn wf(self) -> bool {
        &&& self.entries().len() >= 1
        &&& (self.spec_next_entry() as int) < self.entries().len()
        &&& forall|i: int| 0 <= i < self.entries().len() ==> #[trigger] entry_ok(
            self.entries(),
            i,
        )
    }

    /// Number of slots.
    pub fn len(&self) -> (r: usize)
        ensures
            r == self.entries().len(),
    {
        self.entries.len()
    }

    /// Index of the slot the next send will use.
    #[verifier::when_used_as_spec(spec_next_entry)]
    pub fn next_entry(&self) -> (r: usize)
        ensures
            r == self.spec_next_entry(),
    {
        self.next_entry
    }

    /// Read access to one slot.
    pub fn entry(&self, index: usize) -> (r: &RingEntry)
        requires
            index < self.entries().len(),
        ensures
            *r == self.entries()[index as int],
    {
        &self.entries[index]
    }

    /// Build the transmit ring over its slots: point every descriptor at
    /// its buffer, link the descriptors into a circle and mark the last one
    /// end-of-ring. Unlike the receive ring, every slot starts with
    /// software: the engine gets a slot only when a frame is sent from it.
    ///
    /// The caller registers the ring's base with the engine afterwards; the
    /// ring itself is pure state.
    pub fn new(entries: Vec<RingEntry>) -> (r: TransmitRing)
        requires
            entries@.len() >= 1,
            forall|i: int|
                0 <= i < entries@.len() ==> {
                    let e = #[trigger] entries@[i];
                    e.wf() && e.role() == Role::Transmit && !e.spec_is_owned()
                        && !e.spec_claimed() && !e.descriptor().spec_end_of_ring()
                },
        ensures
            r.wf(),
            r.spec_next_entry() == 0,
            r.entries().len() == entries@.len(),
            forall|i: int|
                0 <= i < entries@.len() ==> !(#[trigger] r.entries()[i]).spec_is_owned()
                    && !r.entries()[i].spec_claimed() && r.entries()[i].buffer()
                    == entries@[i].buffer(),
    {
        let mut result = TransmitRing { entries, next_entry: 0 };

        result.init_ring_entry_buffers();
        result.chain_entry_descriptors();

        result
    }

    /// Point every slot's descriptor at the slot's own buffer.
    fn init_ring_entry_buffers(&mut self)
        requires
            forall|i: int|
                0 <= i < old(self).entries().len() ==> {
                    let e = #[trigger] old(self).entries()[i];
                    e.wf() && !e.spec_is_owned()
                },
        ensures
            final(self).entries().len() == old(self).entries().len(),
            final(self).spec_next_entry() == old(self).spec_next_entry(),
            forall|i: int|
                0 <= i < old(self).entries().len() ==> {
                    let e = #[trigger] final(self).entries()[i];
                    let o = old(self).entries()[i];
                    e.descriptor().buffer1() == Some(i as usize)
                        && e.descriptor().status() == o.descriptor().status()
                        && e.descriptor().next_descriptor() == o.descriptor().next_descriptor()
                        && e.buffer() == o.buffer() && e.spec_claimed() == o.spec_claimed()
                        && e.wf() && !e.spec_is_owned()
                },
    {
        let n = self.entries.len();
        let mut i: usize = 0;
        while i < n
            invariant
                n == self.entries().len(),
                i <= n,
                self.spec_next_entry() == old(self).spec_next_entry(),
                forall|j: int|
                    0 <= j < n ==> {
                        let e = #[trigger] old(self).entries()[j];
                        e.wf() && !e.spec_is_owned()
                    },
                forall|j: int|
                    i <= j < n ==> #[trigger] self.entries()[j] == old(self).entries()[j],
                forall|j: int|
                    0 <= j < i ==> {
                        let e = #[trigger] self.entries()[j];
                        let o = old(self).entries()[j];
                        e.descriptor().buffer1() == Some(j as usize)
                            && e.descriptor().status() == o.descriptor().status()
                            && e.descriptor().next_descriptor()
                                == o.descriptor().next_descriptor()
                            && e.buffer() == o.buffer() && e.spec_claimed() == o.spec_claimed()
                            && e.wf() && !e.spec_is_owned()
                    },
            decreases n - i,
        {
            self.entries[i].init(i);
            i = i + 1;
        }
    }

    /// Link every descriptor to its successor; the last one wraps to the
    /// first and carries the end-of-ring mark.
    fn chain_entry_descriptors(&mut self)
        requires
            old(self).entries().len() >= 1,
            forall|i: int|
                0 <= i < old(self).entries().len() ==> {
                    let e = #[trigger] old(self).entries()[i];
                    e.wf() && e.role() == Role::Transmit
                        && !e.descriptor().spec_end_of_ring()
                },
        ensures
            final(self).entries().len() == old(self).entries().len(),
            final(self).spec_next_entry() == old(self).spec_next_entry(),
            forall|i: int|
                0 <= i < old(self).entries().len() ==> {
                    let e = #[trigger] final(self).entries()[i];
                    let o = old(self).entries()[i];
                    e.descriptor().next_descriptor() == Some(
                        (if i == old(self).entries().len() - 1 {
                            0int
                        } else {
                            i + 1
                        }) as usize,
                    ) && (e.descriptor().spec_end_of_ring() <==> i == old(self).entries().len()
                        - 1) && e.spec_is_owned() == o.spec_is_owned()
                        && e.descriptor().buffer_lengths() == o.descriptor().buffer_lengths()
                        && e.descriptor().buffer1() == o.descriptor().buffer1() && e.buffer()
                        == o.buffer() && e.spec_claimed() == o.spec_claimed() && e.wf()
                        && e.role() == o.role()
                },
    {
        let n = self.entries.len();
        let mut i: usize = 0;
        while i < n
            invariant
                n == self.entries().len(),
                n >= 1,
                i <= n,
                self.spec_next_entry() == old(self).spec_next_entry(),
                forall|j: int|
                    0 <= j < n ==> {
                        let e = #[trigger] old(self).entries()[j];
                        e.wf() && e.role() == Role::Transmit
                            && !e.descriptor().spec_end_of_ring()
                    },
                forall|j: int|
                    i <= j < n ==> #[trigger] self.entries()[j] == old(self).entries()[j],
                forall|j: int|
                    0 <= j < i ==> {
                        let e = #[trigger] self.entries()[j];
                        let o = old(self).entries()[j];
                        e.descriptor().next_descriptor() == Some(
                            (if j == n - 1 {
                                0int
                            } else {
                                j + 1
                            }) as usize,
                        ) && !e.descriptor().spec_end_of_ring() && e.spec_is_owned()
                            == o.spec_is_owned() && e.descriptor().buffer_lengths()
                            == o.descriptor().buffer_lengths() && e.descriptor().buffer1()
                            == o.descriptor().buffer1() && e.buffer() == o.buffer()
                            && e.spec_claimed() == o.spec_claimed() && e.wf() && e.role()
                            == o.role()
                    },
            decreases n - i,
        {
            let next = if i + 1 == n {
                0
            } else {
                i + 1
            };
            self.entries[i].set_next_descriptor(next);
            i = i + 1;
        }

        // The engine must wrap from the last slot back to the first.
        self.entries[n - 1].set_transmit_end_of_ring();
    }

    /// Send one frame: stage the slot at the cursor for `length` bytes, let
    /// `func` produce the bytes of the window, write them into the slot's
    /// buffer, hand the slot to the DMA engine and advance the cursor.
    ///
    /// The window is produced inside the one synchronous call of `func`;
    /// ownership moves to the engine only after `func` has returned, so the
    /// engine can never read a half-written buffer. If the slot is still
    /// engine-held the caller sees `BufferFull` — backpressure — and the
    /// ring is untouched; an oversized `length` gives `FrameTooLong`
    /// likewise. `func` receives the window's previous bytes and must give
    /// back exactly as many, with its own result.
    pub fn transmit_frame<R, F: FnOnce(Vec<u8>) -> (Vec<u8>, R)>(
        &mut self,
        length: usize,
        func: F,
    ) -> (r: Result<R, TransmitError>)
        requires
            old(self).wf(),
            length <= MAX_TRANSMISSION_UNIT || length >= 0x1FFF,
            forall|w: Vec<u8>| w@.len() == length ==> call_requires(func, (w,)),
            forall|w: Vec<u8>, out: (Vec<u8>, R)|
                #[trigger] call_ensures(func, (w,), out) ==> out.0@.len() == w@.len(),
        ensures
            final(self).wf(),
            final(self).entries().len() == old(self).entries().len(),
            ({
                let idx = old(self).spec_next_entry() as int;
                let e = old(self).entries()[idx];
                let n = old(self).entries().len() as int;
                &&& (forall|j: int|
                    0 <= j < n && j != idx ==> #[trigger] final(self).entries()[j]
                        == old(self).entries()[j])
                &&& (e.spec_is_owned() || e.spec_claimed()) ==> r == Result::<
                    R,
                    TransmitError,
                >::Err(TransmitError::BufferFull) && final(self).entries()
                    == old(self).entries() && final(self).spec_next_entry()
                    == old(self).spec_next_entry()
                &&& !e.spec_is_owned() && !e.spec_claimed() && length >= 0x1FFF ==> r
                    == Result::<R, TransmitError>::Err(TransmitError::FrameTooLong)
                    && final(self).entries() == old(self).entries()
                    && final(self).spec_next_entry() == old(self).spec_next_entry()
                &&& !e.spec_is_owned() && !e.spec_claimed() && length < 0x1FFF ==> (exists|
                    w: Vec<u8>,
                    w2: Vec<u8>,
                    out: R,
                |
                    {
                        &&& w@ == e.buffer().take(length as int)
                        &&& #[trigger] call_ensures(func, (w,), (w2, out))
                        &&& r == Result::<R, TransmitError>::Ok(out)
                        &&& final(self).entries()[idx].buffer() == w2@ + e.buffer().skip(
                            length as int,
                        )
                    }) && final(self).entries()[idx].spec_is_owned()
                    && !final(self).entries()[idx].spec_claimed()
                    && final(self).entries()[idx].descriptor().buffer_lengths().spec_buffer1_len()
                        == length && final(self).spec_next_entry() as int == (if idx + 1 == n {
                    0int
                } else {
                    idx + 1
                })
            }),
    {
        let idx = self.next_entry;
        proof {
            assert(entry_ok(old(self).entries(), idx as int));
        }

        // Stage the slot, or report backpressure / an oversized frame.
        match self.entries[idx].prepare_frame(length) {
            Ok(()) => {},
            Err(e) => {
                proof {
                    assert(self.entries@ =~= old(self).entries@);
                }
                return Err(e);
            },
        }

        // Copy the window out and let the caller fill it.
        let mut window: Vec<u8> = Vec::new();
        let buffer = self.entries[idx].buffer_bytes();
        proof {
            assert(window@ =~= buffer@.take(0));
        }
        let mut j: usize = 0;
        while j < length
            invariant
                j <= length,
                length <= buffer@.len(),
                window@ == buffer@.take(j as int),
            decreases length - j,
        {
            let b = buffer[j];
            window.push(b);
            proof {
                assert(window@ =~= buffer@.take(j + 1int));
            }
            j = j + 1;
        }

        let (filled, result) = func(window);

        // Write the produced bytes back and hand the slot to the engine.
        self.entries[idx].fill_buffer(&filled);
        self.entries[idx].set_owned();
        proof {
            lemma_entry_ok_stable(old(self).entries(), self.entries(), idx as int);
        }
        self.increment_next_entry();

        Ok(result)
    }

    /// Model of the DMA engine finishing the send from slot `index`: the
    /// ownership token returns to software and the error summary reports
    /// how the send went.
    pub fn complete_transmit(&mut self, index: usize, error: bool)
        requires
            old(self).wf(),
            index < old(self).entries().len(),
            old(self).entries()[index as int].spec_is_owned(),
        ensures
            final(self).wf(),
            final(self).entries().len() == old(self).entries().len(),
            final(self).spec_next_entry() == old(self).spec_next_entry(),
            forall|j: int|
                0 <= j < old(self).entries().len() && j != index as int
                    ==> #[trigger] final(self).entries()[j] == old(self).entries()[j],
            !final(self).entries()[index as int].spec_is_owned(),
            !final(self).entries()[index as int].spec_claimed(),
            final(self).entries()[index as int].descriptor().spec_has_error() == error,
            final(self).entries()[index as int].buffer()
                == old(self).entries()[index as int].buffer(),
    {
        let ghost prev = *self;
        proof {
            assert(entry_ok(prev.entries(), index as int));
        }
        self.entries[index].complete_transmit(error);
        proof {
            lemma_entry_ok_stable(prev.entries(), self.entries(), index as int);
        }
    }

    /// Step the cursor by one slot, wrapping at the end of the ring.
    fn increment_next_entry(&mut self)
        requires
            old(self).entries().len() >= 1,
            (old(self).spec_next_entry() as int) < old(self).entries().len(),
        ensures
            final(self).entries() == old(self).entries(),
            final(self).spec_next_entry() as int == (if old(self).spec_next_entry() + 1
                == old(self).entries().len() {
                0int
            } else {
                old(self).spec_next_entry() + 1
            }),
    {
        let n = self.entries.len();
        self.next_entry = self.next_entry + 1;

        if self.next_entry >= n {
            self.next_entry = 0;
        }
    }
}

/// Every well-formed transmit ring of N slots is a true circle: exactly one
/// slot carries the end-of-ring mark — the last — and following the
/// next-descriptor links N times from slot 0 returns to slot 0.
pub proof fn lemma_transmit_ring_circle(ring: TransmitRing)
    requires
        ring.wf(),
        ring.entries().len() <= usize::MAX,
    ensures
        forall|i: int|
            0 <= i < ring.entries().len()
                ==> ((#[trigger] ring.entries()[i].descriptor().spec_end_of_ring()) <==> i
                == ring.entries().len() - 1),
        crate::ethernet::ring::follow_links(ring.entries(), ring.entries().len() as nat) == 0,
{
    let s = ring.entries();
    assert forall|i: int|
        0 <= i < s.len() implies ((#[trigger] s[i].descriptor().spec_end_of_ring()) <==> i
        == s.len() - 1) by {
        assert(entry_ok(s, i));
    }
    assert forall|i: int|
        0 <= i < s.len() implies (#[trigger] s[i].descriptor().next_descriptor()) == Some(
        (if i == s.len() - 1 {
            0int
        } else {
            i + 1
        }) as usize,
    ) by {
        assert(entry_ok(s, i));
    }
    crate::ethernet::ring::lemma_follow_links_prefix(s, (s.len() - 1) as nat);
}

/// No slot of a well-formed transmit ring is ever held by software (an
/// outstanding staged frame) and by the DMA engine at the same time.
pub proof fn lemma_transmit_ownership_exclusive(ring: TransmitRing, i: int)
    requires
        ring.wf(),
        0 <= i < ring.entries().len(),
    ensures
        !(ring.entries()[i].spec_claimed() && ring.entries()[i].spec_is_owned()),
{
    assert(entry_ok(ring.entries(), i));
}

/// One slot's place in a well-formed transmit ring: a transmit slot pointing
/// at its own buffer, linked to its successor (the last slot wraps to the
/// first and carries the only end-of-ring mark).
pub open spec fn entry_ok(s: Seq<RingEntry>, i: int) -> bool {
    let e = s[i];
    &&& e.wf()
    &&& e.role() == Role::Transmit
    &&& e.descriptor().buffer1() == Some(i as usize)
    &&& e.descriptor().next_descriptor() == Some(
        (if i == s.len() - 1 {
            0int
        } else {
            i + 1
        }) as usize,
    )
    &&& (e.descriptor().spec_end_of_ring() <==> i == s.len() - 1)
}

/// When one transmit slot changes but keeps its place — role, buffer
/// pointer, link, end-of-ring mark and well-formedness — every slot of the
/// ring is still in its place.
proof fn lemma_entry_ok_stable(prev: Seq<RingEntry>, cur: Seq<RingEntry>, idx: int)
    requires
        forall|j: int| 0 <= j < prev.len() && j != idx ==> #[trigger] cur[j] == prev[j],
        cur.len() == prev.len(),
        forall|j: int| 0 <= j < prev.len() ==> #[trigger] entry_ok(prev, j),
        0 <= idx < prev.len(),
        ({
            let e = cur[idx];
            let o = prev[idx];
            e.wf() && e.role() == o.role() && e.descriptor().buffer1()
                == o.descriptor().buffer1() && e.descriptor().next_descriptor()
                == o.descriptor().next_descriptor() && e.descriptor().spec_end_of_ring()
                == o.descriptor().spec_end_of_ring()
        }),
    ensures
        forall|j: int| 0 <= j < cur.len() ==> #[trigger] entry_ok(cur, j),
{
    assert forall|j: int| 0 <= j < cur.len() implies #[trigger] entry_ok(cur, j) by {
        assert(entry_ok(prev, j));
    }
}

} // verus!
