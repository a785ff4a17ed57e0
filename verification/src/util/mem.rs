use vstd::bytes::{
    spec_u16_from_le_bytes, spec_u16_to_le_bytes, spec_u32_from_le_bytes, spec_u32_to_le_bytes,
    spec_u64_from_le_bytes, spec_u64_to_le_bytes, u16_from_le_bytes, u16_to_le_bytes,
    u32_from_le_bytes, u32_to_le_bytes, u64_from_le_bytes, u64_to_le_bytes,
};
use vstd::prelude::*;

use crate::error::Error;

verus! {

/// Outcome of a transfer between the tracer and the target's memory.
///
/// `transferred` is what the cross-process call returned: the number of
/// bytes moved, or a negative number when it failed. A transfer that moved
/// fewer bytes than were asked for is a failure, not a truncation.
pub fn check_transfer(requested: usize, transferred: isize) -> (r: Result<(), Error>)
    ensures
        transferred == requested ==> r == Ok::<(), Error>(()),
        transferred != requested ==> r == Err::<(), Error>(Error::MemoryAccessFailed),
{
    if transferred >= 0 && transferred as usize == requested {
        Ok(())
    } else {
        Err(Error::MemoryAccessFailed)
    }
}

/// The integer that `bytes`, read from the target, stand for: a
/// little-endian integer of one, two, four or eight bytes, widened to a
/// script integer with its sign if `signed`, without it otherwise. Any other
/// number of bytes stands for nothing.
pub open spec fn spec_read(bytes: Seq<u8>, signed: bool) -> Option<i64> {
    if bytes.len() == 1 {
        Some(if signed { (bytes[0] as i8) as i64 } else { bytes[0] as i64 })
    } else if bytes.len() == 2 {
        let word = spec_u16_from_le_bytes(bytes);
        Some(if signed { (word as i16) as i64 } else { word as i64 })
    } else if bytes.len() == 4 {
        let word = spec_u32_from_le_bytes(bytes);
        Some(if signed { (word as i32) as i64 } else { word as i64 })
    } else if bytes.len() == 8 {
        Some(spec_u64_from_le_bytes(bytes) as i64)
    } else {
        None
    }
}

/// The bytes that are written to the target for `value` as an integer of
/// `width` bytes: the low `width` bytes of the value, little end first. A
/// width other than 1, 2, 4 or 8 has none.
pub open spec fn spec_write(value: i64, width: usize) -> Option<Seq<u8>> {
    if width == 1 {
        Some(seq![value as u8])
    } else if width == 2 {
        Some(spec_u16_to_le_bytes(value as u16))
    } else if width == 4 {
        Some(spec_u32_to_le_bytes(value as u32))
    } else if width == 8 {
        Some(spec_u64_to_le_bytes(value as u64))
    } else {
        None
    }
}

/// Reads an integer out of bytes that came from the target.
pub fn read(bytes: &[u8], signed: bool) -> (value: Option<i64>)
    ensures
        value == spec_read(bytes@, signed),
{
    if bytes.len() == 1 {
        let byte = bytes[0];
        Some(if signed { (byte as i8) as i64 } else { byte as i64 })
    } else if bytes.len() == 2 {
        let word = u16_from_le_bytes(bytes);
        Some(if signed { (word as i16) as i64 } else { word as i64 })
    } else if bytes.len() == 4 {
        let word = u32_from_le_bytes(bytes);
        Some(if signed { (word as i32) as i64 } else { word as i64 })
    } else if bytes.len() == 8 {
        Some(u64_from_le_bytes(bytes) as i64)
    } else {
        None
    }
}

/// Lays an integer out as the bytes to write to the target.
pub fn write(value: i64, width: usize) -> (bytes: Option<Vec<u8>>)
    ensures
        bytes is Some == spec_write(value, width) is Some,
        bytes matches Some(laid) ==> laid@ == spec_write(value, width)->Some_0 && laid@.len()
            == width,
{
    if width == 1 {
        let mut laid: Vec<u8> = Vec::new();
        laid.push(value as u8);
        Some(laid)
    } else if width == 2 {
        Some(u16_to_le_bytes(value as u16))
    } else if width == 4 {
        Some(u32_to_le_bytes(value as u32))
    } else if width == 8 {
        Some(u64_to_le_bytes(value as u64))
    } else {
        None
    }
}

/// An integer that fits the width it is written with is read back, with
/// its sign, as the integer that was written.
pub proof fn lemma_write_then_read(value: i64, width: usize)
    requires
        width == 1 && -0x80 <= value < 0x80 || width == 2 && -0x8000 <= value < 0x8000 || width == 4
            && -0x8000_0000 <= value < 0x8000_0000 || width == 8,
    ensures
        spec_write(value, width) is Some,
        spec_read(spec_write(value, width)->Some_0, true) == Some(value),
{
    vstd::bytes::lemma_auto_spec_u16_to_from_le_bytes();
    vstd::bytes::lemma_auto_spec_u32_to_from_le_bytes();
    vstd::bytes::lemma_auto_spec_u64_to_from_le_bytes();
    if width == 1 {
        assert(-0x80 <= value < 0x80 ==> ((value as u8) as i8) as i64 == value) by (bit_vector);
    } else if width == 2 {
        assert(-0x8000 <= value < 0x8000 ==> ((value as u16) as i16) as i64 == value)
            by (bit_vector);
    } else if width == 4 {
        assert(-0x8000_0000 <= value < 0x8000_0000 ==> ((value as u32) as i32) as i64 == value)
            by (bit_vector);
    } else {
        assert((value as u64) as i64 == value) by (bit_vector);
    }
}

} // verus!
