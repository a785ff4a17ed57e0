use vstd::prelude::*;

use crate::util::text::{find, lossy, position, text_of};

verus! {

/// Number of bytes that a read takes when the script names no length.
pub const DEFAULT_LENGTH: i64 = 256;

/// Most bytes that one read of raw bytes takes.
pub const MAX_BYTES: i64 = 32767 * 1000;

/// Most bytes that one read of a string takes.
pub const MAX_STRING: i64 = 32767;

/// The address that a script's argument names. An argument that is not an
/// integer, or a negative one, names none.
pub fn address(argument: Option<i64>) -> (address: Option<u64>)
    ensures
        address == match argument {
            Some(value) if value >= 0 => Some(value as u64),
            _ => None::<u64>,
        },
{
    match argument {
        Some(value) => if value >= 0 {
            Some(value as u64)
        } else {
            None
        },
        None => None,
    }
}

/// The number of bytes to read for a script's length argument: the argument,
/// or `DEFAULT_LENGTH` if it is not an integer, but no more than `cap`. A
/// negative number of bytes cannot be read.
pub open spec fn spec_length(argument: Option<i64>, cap: i64) -> Option<usize> {
    let asked = match argument {
        Some(value) => value,
        None => DEFAULT_LENGTH,
    };
    let capped = if asked <= cap {
        asked
    } else {
        cap
    };
    if capped >= 0 {
        Some(capped as usize)
    } else {
        None
    }
}

/// The number of bytes to read for a script's length argument, capped at
/// `cap`.
pub fn length(argument: Option<i64>, cap: i64) -> (length: Option<usize>)
    ensures
        length == spec_length(argument, cap),
{
    let asked = match argument {
        Some(value) => value,
        None => DEFAULT_LENGTH,
    };
    let capped = if asked <= cap {
        asked
    } else {
        cap
    };
    if capped >= 0 {
        Some(capped as usize)
    } else {
        None
    }
}

/// The string that was read from the target into `bytes`: the bytes before
/// the first zero byte, or all of them if there is none, read as text.
pub fn read_string(bytes: &[u8]) -> (text: String)
    ensures
        text@ == text_of(bytes@.subrange(0, position(bytes@, 0) as int)),
{
    let end = find(bytes, 0);
    let head = vstd::slice::slice_subrange(bytes, 0, end);
    lossy(head)
}

/// The pointer that follows `pointer` in a chain: the word at `pointer +
/// offset` is read next. Addresses wrap around at 64 bits.
pub fn chain_address(pointer: u64, offset: i64) -> (address: u64)
    ensures
        address == (pointer + offset) % 0x1_0000_0000_0000_0000,
{
    let address = pointer.wrapping_add(offset as u64);
    assert(address == (pointer + offset) % 0x1_0000_0000_0000_0000) by {
        assert(offset >= 0 ==> offset as u64 == offset);
        assert(offset < 0 ==> offset as u64 == offset + 0x1_0000_0000_0000_0000) by (bit_vector);
    }
    address
}

/// The address of the stack slot `offset` bytes below the stack pointer.
/// Addresses wrap around at 64 bits.
pub fn stack_address(rsp: u64, offset: i64) -> (address: u64)
    ensures
        address == (rsp - offset) % 0x1_0000_0000_0000_0000,
{
    let address = rsp.wrapping_sub(offset as u64);
    assert(address == (rsp - offset) % 0x1_0000_0000_0000_0000) by {
        assert(offset >= 0 ==> offset as u64 == offset);
        assert(offset < 0 ==> offset as u64 == offset + 0x1_0000_0000_0000_0000) by (bit_vector);
    }
    address
}

/// The lower-case hexadecimal digit for a value below sixteen.
pub open spec fn hex_char(nibble: u64) -> u8 {
    if nibble < 10 {
        (0x30 + nibble) as u8
    } else {
        (0x61 + nibble - 10) as u8
    }
}

/// The last `digits` hexadecimal digits of `value`, the most significant
/// first, with leading zeros.
pub open spec fn hex_field(value: u64, digits: nat) -> Seq<u8>
    decreases digits,
{
    if digits == 0 {
        Seq::empty()
    } else {
        hex_field(value / 16, (digits - 1) as nat).push(hex_char(value % 16))
    }
}

/// The character that stands for `byte` in the text column of a dump: the
/// byte itself if it is a visible ASCII character, a full stop otherwise.
pub open spec fn shown(byte: u8) -> u8 {
    if 0x21 <= byte <= 0x7e {
        byte
    } else {
        0x2e
    }
}

/// The first `n` cells of the hexadecimal column of the row of `data` that
/// begins at `offset`: two digits and a blank for each byte, three blanks
/// where the data has ended, and one more blank after the eighth cell.
pub open spec fn hex_cells(data: Seq<u8>, offset: int, n: nat) -> Seq<u8>
    decreases n,
{
    if n == 0 {
        Seq::empty()
    } else {
        let cell = if offset + n - 1 < data.len() {
            hex_field(data[offset + n - 1] as u64, 2).push(0x20)
        } else {
            seq![0x20u8, 0x20u8, 0x20u8]
        };
        let gap = if n == 8 {
            seq![0x20u8]
        } else {
            Seq::empty()
        };
        hex_cells(data, offset, (n - 1) as nat) + cell + gap
    }
}

/// The first `n` cells of the text column of the row of `data` that begins
/// at `offset`: one character for each byte, nothing where the data has
/// ended.
pub open spec fn text_cells(data: Seq<u8>, offset: int, n: nat) -> Seq<u8>
    decreases n,
{
    if n == 0 {
        Seq::empty()
    } else if offset + n - 1 < data.len() {
        text_cells(data, offset, (n - 1) as nat).push(shown(data[offset + n - 1]))
    } else {
        text_cells(data, offset, (n - 1) as nat)
    }
}

/// The row of a dump for the sixteen bytes of `data` that begin at
/// `offset`: the address of the first byte in sixteen digits, two blanks,
/// the hexadecimal column, a blank, the text column and a line feed.
/// Addresses wrap around at 64 bits.
pub open spec fn dump_row(address: u64, data: Seq<u8>, offset: int) -> Seq<u8> {
    hex_field(((address + offset) % 0x1_0000_0000_0000_0000) as u64, 16) + seq![0x20u8, 0x20u8]
        + hex_cells(data, offset, 16) + seq![0x20u8] + text_cells(data, offset, 16) + seq![0x0au8]
}

/// The first `n` rows of a dump.
pub open spec fn dump_rows(address: u64, data: Seq<u8>, n: nat) -> Seq<u8>
    decreases n,
{
    if n == 0 {
        Seq::empty()
    } else {
        dump_rows(address, data, (n - 1) as nat) + dump_row(address, data, 16 * (n - 1))
    }
}

/// The dump of `data`, which was read at `address`: a row for every sixteen
/// bytes, the last one for what is left, without the line feed of the last
/// row. No data gives no text.
pub open spec fn spec_hexdump(address: u64, data: Seq<u8>) -> Seq<u8> {
    let rows = dump_rows(address, data, ((data.len() + 15) / 16) as nat);
    if rows.len() > 0 {
        rows.drop_last()
    } else {
        rows
    }
}

/// Appends the last `digits` hexadecimal digits of `value`.
fn push_hex(out: &mut Vec<u8>, value: u64, digits: usize)
    ensures
        final(out)@ == old(out)@ + hex_field(value, digits as nat),
    decreases digits,
{
    if digits > 0 {
        push_hex(out, value / 16, digits - 1);
        let nibble = value % 16;
        let digit: u8 = if nibble < 10 {
            (0x30 + nibble) as u8
        } else {
            (0x61 + nibble - 10) as u8
        };
        out.push(digit);
        assert(out@ == old(out)@ + hex_field(value, digits as nat));
    }
}

/// Appends the hexadecimal column of the row that begins at `offset`.
fn push_hex_cells(out: &mut Vec<u8>, data: &[u8], offset: usize)
    requires
        offset <= data@.len(),
    ensures
        final(out)@ == old(out)@ + hex_cells(data@, offset as int, 16),
{
    let left: usize = data.len() - offset;
    let mut i: usize = 0;
    while i < 16
        invariant
            i <= 16,
            offset + left == data@.len(),
            data@.len() <= usize::MAX,
            out@ == old(out)@ + hex_cells(data@, offset as int, i as nat),
        decreases 16 - i,
    {
        let ghost before = out@;
        if i < left {
            push_hex(out, data[offset + i] as u64, 2);
            out.push(0x20);
        } else {
            out.push(0x20);
            out.push(0x20);
            out.push(0x20);
        }
        if i == 7 {
            out.push(0x20);
        }
        i += 1;
        assert(out@ == old(out)@ + hex_cells(data@, offset as int, i as nat));
    }
}

/// Appends the text column of the row that begins at `offset`.
fn push_text_cells(out: &mut Vec<u8>, data: &[u8], offset: usize)
    requires
        offset <= data@.len(),
    ensures
        final(out)@ == old(out)@ + text_cells(data@, offset as int, 16),
{
    let left: usize = data.len() - offset;
    let mut i: usize = 0;
    while i < 16
        invariant
            i <= 16,
            offset + left == data@.len(),
            data@.len() <= usize::MAX,
            out@ == old(out)@ + text_cells(data@, offset as int, i as nat),
        decreases 16 - i,
    {
        if i < left {
            let byte = data[offset + i];
            out.push(if 0x21 <= byte && byte <= 0x7e {
                byte
            } else {
                0x2e
            });
        }
        i += 1;
    }
}

/// Appends the row that begins at `offset`.
fn push_row(out: &mut Vec<u8>, address: u64, data: &[u8], offset: usize)
    requires
        offset <= data@.len(),
    ensures
        final(out)@ == old(out)@ + dump_row(address, data@, offset as int),
{
    push_hex(out, address.wrapping_add(offset as u64), 16);
    out.push(0x20);
    out.push(0x20);
    let ghost head = out@;
    assert(head == old(out)@ + hex_field(
        ((address + offset) % 0x1_0000_0000_0000_0000) as u64,
        16,
    ) + seq![0x20u8, 0x20u8]);
    push_hex_cells(out, data, offset);
    out.push(0x20);
    let ghost middle = out@;
    assert(middle == head + hex_cells(data@, offset as int, 16) + seq![0x20u8]);
    push_text_cells(out, data, offset);
    out.push(0x0a);
    assert(out@ == middle + text_cells(data@, offset as int, 16) + seq![0x0au8]);
}

/// Formats `data`, which was read at `address`, as a dump: for every
/// sixteen bytes a row with the address, the bytes in hexadecimal and the
/// bytes as text. The result is ASCII text.
pub fn hexdump(address: u64, data: &[u8]) -> (text: Vec<u8>)
    ensures
        text@ == spec_hexdump(address, data@),
{
    let rows: usize = data.len() / 16 + if data.len() % 16 != 0 {
        1
    } else {
        0
    };
    let mut out: Vec<u8> = Vec::new();
    let mut row: usize = 0;
    while row < rows
        invariant
            rows == (data@.len() + 15) / 16,
            data@.len() <= usize::MAX,
            row <= rows,
            out@ == dump_rows(address, data@, row as nat),
        decreases rows - row,
    {
        assert(row * 16 < data@.len());
        push_row(&mut out, address, data, row * 16);
        row += 1;
    }
    if out.len() > 0 {
        out.pop();
    }
    out
}

} // verus!
