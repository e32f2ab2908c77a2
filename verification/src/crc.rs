//! The checksum the benchmark prints over its results: a 16-bit CRC fed one
//! byte at a time, eight shift-and-conditionally-xor rounds per byte.

use vstd::prelude::*;

verus! {

/// One round of the byte CRC: combine the low bits of the data and the
/// accumulator, shift both right, and fold the polynomial back in when the
/// combined bit was set.
pub open spec fn crc8_round(data: u8, crc: u16) -> (u8, u16) {
    let x16 = (data & 1) ^ ((crc & 1) as u8);
    if x16 == 1 {
        (data >> 1, (((crc ^ 0x4002) >> 1) | 0x8000) as u16)
    } else {
        (data >> 1, ((crc >> 1) & 0x7fff) as u16)
    }
}

/// The accumulator after `rounds` rounds of [`crc8_round`].
pub open spec fn crc8_rounds(data: u8, crc: u16, rounds: nat) -> u16
    decreases rounds,
{
    if rounds == 0 {
        crc
    } else {
        let prev = crc8_rounds(data, crc, (rounds - 1) as nat);
        crc8_round(crc8_data_rounds(data, (rounds - 1) as nat), prev).1
    }
}

/// The data byte after `rounds` right shifts.
pub open spec fn crc8_data_rounds(data: u8, rounds: nat) -> u8
    decreases rounds,
{
    if rounds == 0 {
        data
    } else {
        crc8_data_rounds(data, (rounds - 1) as nat) >> 1
    }
}

/// The CRC of one 32-bit word: its four bytes folded in, least significant
/// first.
pub open spec fn spec_crc32(data: u32, crc: u16) -> u16 {
    let c0 = crc8_rounds(data as u8, crc, 8);
    let c1 = crc8_rounds((data >> 8) as u8, c0, 8);
    let c2 = crc8_rounds((data >> 16) as u8, c1, 8);
    crc8_rounds((data >> 24) as u8, c2, 8)
}

/// Fold one byte into the running CRC: eight rounds of shift and
/// conditional polynomial xor.
pub fn calc_crc8(data: u8, crc: u16) -> (r: u16)
    ensures
        r == crc8_rounds(data, crc, 8),
{
    let mut data = data;
    let mut crc = crc;
    let ghost data0 = data;
    let ghost crc0 = crc;

    let mut i: usize = 0;
    while i < 8
        invariant
            i <= 8,
            data == crc8_data_rounds(data0, i as nat),
            crc == crc8_rounds(data0, crc0, i as nat),
        decreases 8 - i,
    {
        let x16: u8 = (data & 1) ^ ((crc & 1) as u8);
        data = data >> 1;

        let carry: u8;
        if x16 == 1 {
            crc = crc ^ 0x4002;
            carry = 1;
        } else {
            carry = 0;
        }

        crc = crc >> 1;
        if carry != 0 {
            crc = crc | 0x8000;
        } else {
            crc = crc & 0x7fff;
        }

        i = i + 1;
    }

    crc
}

/// Fold one 32-bit word into the running CRC, byte by byte from the least
/// significant end.
pub fn calc_crc32(data: u32, crc: u16) -> (r: u16)
    ensures
        r == spec_crc32(data, crc),
{
    let mut crc = crc;
    crc = calc_crc8(data as u8, crc);
    crc = calc_crc8((data >> 8) as u8, crc);
    crc = calc_crc8((data >> 16) as u8, crc);
    crc = calc_crc8((data >> 24) as u8, crc);

    crc
}

} // verus!
