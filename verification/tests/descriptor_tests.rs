//! The descriptor words: bit layout, length encoding, ownership token.

use stm32f207_hal::ethernet::descriptor::{Descriptor, SetBufferError};
use stm32f207_hal::ethernet::status::Status;

/// The largest encodable length goes through; one more is refused with the
/// dedicated error.
#[test]
fn buffer_length_limit_is_exact() {
    let mut descriptor = Descriptor::new_receive();
    assert_eq!(descriptor.set_buffer1(0, 0x1FFE), Ok(()));
    assert_eq!(descriptor.buffer1_len(), 0x1FFE);

    let mut descriptor = Descriptor::new_receive();
    assert_eq!(
        descriptor.set_buffer1(0, 0x1FFF),
        Err(SetBufferError::TooLongBufferLen)
    );
    // The failed write touched nothing.
    assert_eq!(descriptor.buffer1_index(), None);
    assert_eq!(descriptor.buffer1_len(), 0);
}

/// The length-only write has the same exact limit.
#[test]
fn buffer1_len_limit_is_exact() {
    let mut descriptor = Descriptor::new_transmit();
    assert_eq!(descriptor.set_buffer1_len(0x1FFE), Ok(()));
    assert_eq!(descriptor.buffer1_len(), 0x1FFE);
    assert_eq!(
        descriptor.set_buffer1_len(0x1FFF),
        Err(SetBufferError::TooLongBufferLen)
    );
    assert_eq!(descriptor.buffer1_len(), 0x1FFE);
}

/// A first-segment-only completion reports no frame length; both segment
/// bits together report the length field.
#[test]
fn frame_len_needs_both_segment_bits() {
    let first_only = Status::receive_completed(100, true, false, false);
    assert_eq!(first_only.get_frame_len(), None);

    let last_only = Status::receive_completed(100, false, true, false);
    assert_eq!(last_only.get_frame_len(), None);

    let whole = Status::receive_completed(100, true, true, false);
    assert_eq!(whole.get_frame_len(), Some(100));
}

/// A fresh receive descriptor is engine-ready but not yet granted: zero
/// status, chained mode, no pointers, no end-of-ring.
#[test]
fn fresh_receive_descriptor_defaults() {
    let descriptor = Descriptor::new_receive();
    assert!(!descriptor.is_owned());
    assert!(!descriptor.has_error());
    assert!(!descriptor.end_of_ring());
    assert_eq!(descriptor.buffer1_index(), None);
    assert_eq!(descriptor.next_descriptor_index(), None);
    assert_eq!(descriptor.get_frame_len(), None);
}

/// A fresh transmit descriptor pre-sets the whole-frame shape bits and
/// holds no end-of-ring mark.
#[test]
fn fresh_transmit_descriptor_defaults() {
    let descriptor = Descriptor::new_transmit();
    assert!(!descriptor.is_owned());
    assert!(!descriptor.has_error());
    assert!(!descriptor.end_of_ring());
    assert_eq!(descriptor.buffer1_len(), 0);
}

/// The ownership token flips on grant and survives the other fields.
#[test]
fn set_owned_raises_the_token() {
    let mut descriptor = Descriptor::new_receive();
    descriptor.set_buffer1(3, 1522).unwrap();
    descriptor.set_next_descriptor(4);
    assert!(!descriptor.is_owned());

    descriptor.set_owned();
    assert!(descriptor.is_owned());
    assert_eq!(descriptor.buffer1_index(), Some(3));
    assert_eq!(descriptor.next_descriptor_index(), Some(4));
    assert_eq!(descriptor.buffer1_len(), 1522);
}

/// The receive wrap mark lives in the length word and survives a length
/// write; the transmit wrap mark lives in the status word.
#[test]
fn end_of_ring_sits_in_the_role_field() {
    let mut receive = Descriptor::new_receive();
    receive.set_receive_end_of_ring();
    assert!(receive.end_of_ring());
    receive.set_buffer1_len(1000).unwrap();
    assert!(receive.end_of_ring());
    assert_eq!(receive.buffer1_len(), 1000);

    let mut transmit = Descriptor::new_transmit();
    transmit.set_transmit_end_of_ring();
    assert!(transmit.end_of_ring());
    transmit.set_owned();
    assert!(transmit.end_of_ring());
}

/// The simulated transmit completion clears the token and reports the
/// error summary, keeping the wrap mark.
#[test]
fn transmit_completion_reports_error_summary() {
    let mut descriptor = Descriptor::new_transmit();
    descriptor.set_transmit_end_of_ring();
    descriptor.set_owned();

    descriptor.complete_transmit(true);
    assert!(!descriptor.is_owned());
    assert!(descriptor.has_error());
    assert!(descriptor.end_of_ring());

    descriptor.set_owned();
    descriptor.complete_transmit(false);
    assert!(!descriptor.has_error());
}
