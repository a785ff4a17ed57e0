use vstd::prelude::*;

verus! {

/// A value that a script hands over to be written to a file.
#[derive(Debug)]
pub enum ScriptValue {
    /// An array of values.
    Array(Vec<ScriptValue>),
    /// A string or a blob, or any other value as the text that it is
    /// printed as.
    Bytes(Vec<u8>),
    /// A boolean.
    Bool(bool),
    /// An integer.
    Int(i64),
}

/// The decimal digits of a natural number, without leading zeros.
pub open spec fn decimal_digits(number: nat) -> Seq<u8>
    decreases number,
{
    if number < 10 {
        seq![(0x30 + number) as u8]
    } else {
        decimal_digits(number / 10).push((0x30 + number % 10) as u8)
    }
}

/// An integer in decimal, with a minus sign if it is negative.
pub open spec fn decimal(number: int) -> Seq<u8> {
    if number < 0 {
        seq![0x2du8] + decimal_digits((-number) as nat)
    } else {
        decimal_digits(number as nat)
    }
}

/// The text `true`.
pub open spec fn true_text() -> Seq<u8> {
    seq![0x74u8, 0x72u8, 0x75u8, 0x65u8]
}

/// The text `false`.
pub open spec fn false_text() -> Seq<u8> {
    seq![0x66u8, 0x61u8, 0x6cu8, 0x73u8, 0x65u8]
}

/// The bytes that are written for a value: bytes as they are, a boolean as
/// `true` or `false`, an integer in decimal, and an array as its elements
/// between square brackets, with a comma after each of them.
pub open spec fn written(value: ScriptValue) -> Seq<u8>
    decreases value,
{
    match value {
        ScriptValue::Array(items) => (seq![0x5bu8] + written_items(items@, items@.len())).push(
            0x5d,
        ),
        ScriptValue::Bytes(bytes) => bytes@,
        ScriptValue::Bool(flag) => if flag {
            true_text()
        } else {
            false_text()
        },
        ScriptValue::Int(number) => decimal(number as int),
    }
}

/// The bytes that are written for the first `n` of `items`: each of them
/// with a comma after it.
pub open spec fn written_items(items: Seq<ScriptValue>, n: nat) -> Seq<u8>
    decreases items, n,
{
    if n == 0 || n > items.len() {
        Seq::empty()
    } else {
        (written_items(items, (n - 1) as nat) + written(items[n - 1])).push(0x2c)
    }
}

/// Appends the decimal digits of `number`.
fn push_digits(out: &mut Vec<u8>, number: u64)
    ensures
        final(out)@ == old(out)@ + decimal_digits(number as nat),
    decreases number,
{
    if number < 10 {
        out.push((0x30 + number) as u8);
    } else {
        push_digits(out, number / 10);
        out.push((0x30 + number % 10) as u8);
        assert(out@ == old(out)@ + decimal_digits(number as nat));
    }
}

/// Appends the bytes that are written for `value`.
fn push_value(out: &mut Vec<u8>, value: &ScriptValue)
    ensures
        final(out)@ == old(out)@ + written(*value),
    decreases value,
{
    match value {
        ScriptValue::Array(items) => {
            out.push(0x5b);
            let mut i: usize = 0;
            while i < items.len()
                invariant
                    i <= items@.len(),
                    *value == ScriptValue::Array(*items),
                    out@ == (old(out)@.push(0x5b)) + written_items(items@, i as nat),
                decreases items@.len() - i,
            {
                assert(*value is Array);
                assert(value->Array_0 == *items);
                assert(decreases_to!(*value => value->Array_0));
                assert(decreases_to!(*items => items[i as int]));
                let ghost before = out@;
                push_value(out, &items[i]);
                out.push(0x2c);
                i += 1;
                assert(out@ == (old(out)@.push(0x5b)) + written_items(items@, i as nat));
            }
            out.push(0x5d);
            assert(out@ == old(out)@ + written(*value));
        },
        ScriptValue::Bytes(bytes) => {
            let mut i: usize = 0;
            while i < bytes.len()
                invariant
                    i <= bytes@.len(),
                    out@ == old(out)@ + bytes@.subrange(0, i as int),
                decreases bytes@.len() - i,
            {
                out.push(bytes[i]);
                i += 1;
            }
            assert(bytes@.subrange(0, i as int) == bytes@);
        },
        ScriptValue::Bool(flag) => {
            if *flag {
                out.push(0x74);
                out.push(0x72);
                out.push(0x75);
                out.push(0x65);
                assert(out@ == old(out)@ + true_text());
            } else {
                out.push(0x66);
                out.push(0x61);
                out.push(0x6c);
                out.push(0x73);
                out.push(0x65);
                assert(out@ == old(out)@ + false_text());
            }
        },
        ScriptValue::Int(number) => {
            if *number < 0 {
                out.push(0x2d);
                let magnitude: u64 = (-(*number + 1)) as u64 + 1;
                push_digits(out, magnitude);
                assert(out@ == old(out)@ + decimal(*number as int));
            } else {
                push_digits(out, *number as u64);
            }
        },
    }
}

/// The bytes that are written to a file for a script's value.
pub fn dynamic_to_bytes(data: &ScriptValue) -> (bytes: Vec<u8>)
    ensures
        bytes@ == written(*data),
{
    let mut bytes: Vec<u8> = Vec::new();
    push_value(&mut bytes, data);
    bytes
}

/// The script's `unsigned_shr(a, b)`: `a`, taken as an unsigned integer of
/// the same bits, shifted right by `b` bits with zeros coming in.
pub fn unsigned_shr(a: i64, b: i64) -> (shifted: i64)
    requires
        0 <= b < 64,
    ensures
        shifted == ((a as u64) >> (b as u64)) as i64,
{
    ((a as u64) >> (b as u64)) as i64
}

/// The script's `unsigned_shl(a, b)`: `a`, taken as an unsigned integer of
/// the same bits, shifted left by `b` bits, with the bits that leave the 64
/// dropped.
pub fn unsigned_shl(a: i64, b: i64) -> (shifted: i64)
    requires
        0 <= b < 64,
    ensures
        shifted == ((a as u64) << (b as u64)) as i64,
{
    ((a as u64) << (b as u64)) as i64
}

} // verus!
