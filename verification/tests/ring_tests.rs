//! The descriptor-ring protocol, driven end to end with a simulated DMA
//! engine on the other side.

use stm32f207_hal::ethernet::receive::{ReceiveError, ReceiveRing};
use stm32f207_hal::ethernet::ring::RingEntry;
use stm32f207_hal::ethernet::transmit::{TransmitError, TransmitRing};

fn receive_ring(n: usize) -> ReceiveRing {
    let mut entries = Vec::new();
    for _ in 0..n {
        entries.push(RingEntry::new_receive());
    }
    ReceiveRing::new(entries)
}

fn transmit_ring(n: usize) -> TransmitRing {
    let mut entries = Vec::new();
    for _ in 0..n {
        entries.push(RingEntry::new_transmit());
    }
    TransmitRing::new(entries)
}

/// A fresh receive ring is a circle: one end-of-ring mark, on the last
/// slot, and the links walk every slot and wrap back to the first.
#[test]
fn receive_ring_links_form_a_circle() {
    for n in [1usize, 2, 4, 7] {
        let ring = receive_ring(n);

        let mut end_marks = 0;
        for i in 0..n {
            let descriptor = ring.entry(i).descriptor_ref();
            if descriptor.end_of_ring() {
                end_marks += 1;
                assert_eq!(i, n - 1);
            }
            assert_eq!(descriptor.buffer1_index(), Some(i));
            assert_eq!(descriptor.buffer1_len(), 1522);
            assert!(ring.entry(i).is_owned());
        }
        assert_eq!(end_marks, 1);

        let mut position = 0usize;
        for _ in 0..n {
            position = ring
                .entry(position)
                .descriptor_ref()
                .next_descriptor_index()
                .expect("chained descriptor must link onward");
        }
        assert_eq!(position, 0);
    }
}

/// A fresh transmit ring is the same circle, with every slot kept by
/// software.
#[test]
fn transmit_ring_links_form_a_circle() {
    for n in [1usize, 3, 5] {
        let ring = transmit_ring(n);

        let mut end_marks = 0;
        for i in 0..n {
            let descriptor = ring.entry(i).descriptor_ref();
            if descriptor.end_of_ring() {
                end_marks += 1;
                assert_eq!(i, n - 1);
            }
            assert_eq!(descriptor.buffer1_index(), Some(i));
            assert!(!ring.entry(i).is_owned());
        }
        assert_eq!(end_marks, 1);

        let mut position = 0usize;
        for _ in 0..n {
            position = ring
                .entry(position)
                .descriptor_ref()
                .next_descriptor_index()
                .expect("chained descriptor must link onward");
        }
        assert_eq!(position, 0);
    }
}

/// Ownership stays exclusive while the two sides toggle an entry back and
/// forth: at no step do both the engine's token and a software claim stand.
#[test]
fn ownership_never_held_by_both_sides() {
    let mut ring = receive_ring(2);

    let exclusive = |ring: &ReceiveRing| {
        for i in 0..2 {
            assert!(!(ring.entry(i).is_owned() && ring.entry(i).is_claimed()));
        }
    };

    exclusive(&ring);
    ring.complete_receive(0, 64, true, true, false);
    exclusive(&ring);
    let frame = ring.receive_frame().expect("completed frame must be claimable");
    exclusive(&ring);
    ring.release_frame(frame);
    exclusive(&ring);
}

/// Releasing a claimed frame hands the slot back to the engine, once.
#[test]
fn release_returns_slot_to_hardware() {
    let mut ring = receive_ring(2);
    ring.complete_receive(0, 100, true, true, false);

    let frame = ring.receive_frame().expect("completed frame must be claimable");
    assert_eq!(frame.entry_index(), 0);
    assert!(!ring.entry(0).is_owned());
    assert!(ring.entry(0).is_claimed());

    ring.release_frame(frame);
    assert!(ring.entry(0).is_owned());
    assert!(!ring.entry(0).is_claimed());
}

/// The early-error exit path recycles the slot just as release does: the
/// token returns to the engine exactly once, with no frame exposed.
#[test]
fn error_exit_recycles_slot_once() {
    let mut ring = receive_ring(1);
    ring.complete_receive(0, 0, true, true, true);

    assert!(matches!(ring.receive_frame(), Err(ReceiveError::DMAError)));
    assert!(ring.entry(0).is_owned());
    assert!(!ring.entry(0).is_claimed());
}

/// Five claims on a four-slot ring of ready entries visit the cursor
/// positions 0, 1, 2, 3 and wrap; the fifth finds slot 0 still unreleased
/// and reports an empty buffer.
#[test]
fn four_ready_slots_five_claims() {
    let mut ring = receive_ring(4);
    for i in 0..4 {
        ring.complete_receive(i, 64 + i, true, true, false);
    }

    let mut frames = Vec::new();
    for expected_cursor in [0usize, 1, 2, 3] {
        assert_eq!(ring.next_entry(), expected_cursor);
        let frame = ring.receive_frame().expect("ready slot must yield a frame");
        assert_eq!(frame.entry_index(), expected_cursor);
        assert_eq!(frame.len(), 64 + expected_cursor);
        frames.push(frame);
    }

    // Slot 0 was never re-armed: the fifth claim reports backpressure and
    // the cursor stays put.
    assert_eq!(ring.next_entry(), 0);
    assert!(matches!(ring.receive_frame(), Err(ReceiveError::BufferEmpty)));
    assert_eq!(ring.next_entry(), 0);
}

/// A claim on a slot the engine still holds is not a terminal outcome: the
/// cursor must not move.
#[test]
fn empty_slot_leaves_cursor_alone() {
    let mut ring = receive_ring(3);
    assert!(matches!(ring.receive_frame(), Err(ReceiveError::BufferEmpty)));
    assert_eq!(ring.next_entry(), 0);
}

/// An errored completion is dropped without exposing data, and the slot
/// goes straight back to the engine.
#[test]
fn errored_frame_is_recycled() {
    let mut ring = receive_ring(2);
    ring.complete_receive(0, 64, true, true, true);

    assert!(matches!(ring.receive_frame(), Err(ReceiveError::DMAError)));
    assert!(ring.entry(0).is_owned());
    // The error was a terminal outcome: the cursor moved on.
    assert_eq!(ring.next_entry(), 1);
}

/// A frame that did not land whole in one buffer — first-segment seen,
/// last-segment missing — is reported as truncated and its slot recycled.
#[test]
fn partial_frame_is_truncated_and_recycled() {
    let mut ring = receive_ring(2);
    ring.complete_receive(0, 500, true, false, false);

    assert!(matches!(ring.receive_frame(), Err(ReceiveError::FrameTruncated)));
    assert!(ring.entry(0).is_owned());
    assert_eq!(ring.next_entry(), 1);
}

/// The claimed frame carries exactly the bytes the engine delivered,
/// bounded to the reported length.
#[test]
fn claimed_frame_carries_delivered_window() {
    let mut ring = receive_ring(1);
    ring.complete_receive(0, 4, true, true, false);

    let frame = ring.receive_frame().expect("ready slot must yield a frame");
    assert_eq!(frame.len(), 4);
    assert_eq!(frame.as_bytes().as_slice(), &[0u8, 0, 0, 0]);
}

/// Two back-to-back sends on a one-slot transmit ring without a simulated
/// completion: the second send reports a full buffer and the first frame's
/// bytes stay exactly as written.
#[test]
fn second_send_backpressured_and_first_frame_intact() {
    let mut ring = transmit_ring(1);

    let sent = ring.transmit_frame(100, |mut window: Vec<u8>| {
        for (i, byte) in window.iter_mut().enumerate() {
            *byte = i as u8;
        }
        (window, 7u32)
    });
    assert_eq!(sent, Ok(7));
    assert!(ring.entry(0).is_owned());

    let again = ring.transmit_frame(100, |mut window: Vec<u8>| {
        for byte in window.iter_mut() {
            *byte = 0xEE;
        }
        (window, 8u32)
    });
    assert_eq!(again, Err(TransmitError::BufferFull));

    let buffer = ring.entry(0).buffer_bytes();
    for i in 0..100 {
        assert_eq!(buffer[i], i as u8);
    }
}

/// An oversized frame is refused per call; the ring stays usable.
#[test]
fn oversized_frame_is_refused() {
    let mut ring = transmit_ring(1);

    let too_long = ring.transmit_frame(0x2000, |window: Vec<u8>| (window, ()));
    assert_eq!(too_long, Err(TransmitError::FrameTooLong));
    assert!(!ring.entry(0).is_owned());

    // The refusal was per call: an ordinary send still goes through.
    let sent = ring.transmit_frame(64, |window: Vec<u8>| (window, ()));
    assert_eq!(sent, Ok(()));
}

/// Once the engine completes a send, the slot can carry the next frame.
#[test]
fn completed_send_rearms_slot() {
    let mut ring = transmit_ring(1);

    assert_eq!(ring.transmit_frame(10, |w: Vec<u8>| (w, ())), Ok(()));
    assert_eq!(
        ring.transmit_frame(10, |w: Vec<u8>| (w, ())),
        Err(TransmitError::BufferFull)
    );

    ring.complete_transmit(0, false);
    assert!(!ring.entry(0).is_owned());
    assert_eq!(ring.transmit_frame(10, |w: Vec<u8>| (w, ())), Ok(()));
}

/// The transmit cursor advances only on a sent frame, wrapping over the
/// ring's size.
#[test]
fn transmit_cursor_wraps() {
    let mut ring = transmit_ring(2);
    assert_eq!(ring.next_entry(), 0);
    assert_eq!(ring.transmit_frame(1, |w: Vec<u8>| (w, ())), Ok(()));
    assert_eq!(ring.next_entry(), 1);
    assert_eq!(ring.transmit_frame(1, |w: Vec<u8>| (w, ())), Ok(()));
    assert_eq!(ring.next_entry(), 0);
}
