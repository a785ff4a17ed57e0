use vstd::prelude::*;

verus! {

/// The text that bytes which are not valid UTF-8 are read as: what is valid
/// in them, with the replacement character in the place of every sequence
/// that is not.
pub uninterp spec fn lossy_text(bytes: Seq<u8>) -> Seq<char>;

/// The text that `bytes` stand for: the text that they encode in UTF-8 if
/// they are valid UTF-8, and what is valid in them, with replacement
/// characters, otherwise.
pub open spec fn text_of(bytes: Seq<u8>) -> Seq<char> {
    if vstd::utf8::valid_utf8(bytes) {
        vstd::utf8::decode_utf8(bytes)
    } else {
        lossy_text(bytes)
    }
}

/// `String::from_utf8_lossy`, made into an owned string: bytes that are
/// valid UTF-8 give the text that they encode, and any other bytes give
/// what is valid in them, with the replacement character for the rest.
#[verifier::external_body]
pub(crate) fn lossy(bytes: &[u8]) -> (text: String)
    ensures
        text@ == text_of(bytes@),
        !vstd::utf8::valid_utf8(bytes@) ==> text@ == lossy_text(bytes@),
{
    String::from_utf8_lossy(bytes).into_owned()
}

/// Number of bytes before the first `byte` in `text`, or the number of all
/// bytes if `byte` does not occur.
pub open spec fn position(text: Seq<u8>, byte: u8) -> nat
    decreases text.len(),
{
    if text.len() == 0 || text[0] == byte {
        0
    } else {
        1 + position(text.drop_first(), byte)
    }
}

/// `position` is where the first `byte` is: no byte before it is `byte`,
/// and the byte at it is `byte` unless it is the end.
pub proof fn lemma_position(text: Seq<u8>, byte: u8)
    ensures
        position(text, byte) <= text.len(),
        forall|i: int| 0 <= i < position(text, byte) ==> text[i] != byte,
        position(text, byte) < text.len() ==> text[position(text, byte) as int] == byte,
    decreases text.len(),
{
    if text.len() > 0 && text[0] != byte {
        let rest = text.drop_first();
        lemma_position(rest, byte);
        assert forall|i: int| 0 <= i < position(text, byte) implies text[i] != byte by {
            if i > 0 {
                assert(text[i] == rest[i - 1]);
            }
        }
    }
}

/// Finds the first `byte` in `text`: the index of the first byte that
/// equals `byte`, or the length of `text` if none does.
pub fn find(text: &[u8], byte: u8) -> (index: usize)
    ensures
        index == position(text@, byte),
        index <= text@.len(),
        forall|i: int| 0 <= i < index ==> text@[i] != byte,
        index < text@.len() ==> text@[index as int] == byte,
{
    proof {
        lemma_position(text@, byte);
    }
    let mut index: usize = 0;
    assert(text@.subrange(0, text@.len() as int) == text@);
    while index < text.len() && text[index] != byte
        invariant
            index <= text@.len(),
            position(text@, byte) == index + position(
                text@.subrange(index as int, text@.len() as int),
                byte,
            ),
        decreases text@.len() - index,
    {
        assert(text@.subrange(index as int, text@.len() as int).drop_first() == text@.subrange(
            index + 1,
            text@.len() as int,
        ));
        index += 1;
    }
    index
}

/// What a text is split at.
#[derive(Debug, Clone, Copy, PartialEq, Eq, Structural)]
pub enum Separator {
    /// Runs of white space: the pieces are the words, and none is empty.
    Space,
    /// Single line feeds: the pieces are the lines, empty ones among them.
    Newline,
}

/// Tells whether `byte` is ASCII white space: a blank, a tab, a line feed,
/// a vertical tab, a form feed or a carriage return.
pub open spec fn is_space(byte: u8) -> bool {
    byte == 0x20 || 0x09 <= byte <= 0x0d
}

impl Separator {
    /// Tells whether `byte` ends a piece.
    pub open spec fn separates(self, byte: u8) -> bool {
        match self {
            Separator::Space => is_space(byte),
            Separator::Newline => byte == 0x0a,
        }
    }

    /// Tells whether a piece without a byte counts.
    pub open spec fn keeps_empty(self) -> bool {
        self is Newline
    }
}

/// The piece that is being read after the first `n` bytes of `text`: the
/// bytes since the last separator.
pub open spec fn pending(text: Seq<u8>, separator: Separator, n: nat) -> Seq<u8>
    decreases n,
{
    if n == 0 || separator.separates(text[n - 1]) {
        Seq::empty()
    } else {
        pending(text, separator, (n - 1) as nat).push(text[n - 1])
    }
}

/// The pieces that are complete after the first `n` bytes of `text`: a
/// piece is complete when a separator follows it.
pub open spec fn complete(text: Seq<u8>, separator: Separator, n: nat) -> Seq<Seq<u8>>
    decreases n,
{
    if n == 0 {
        Seq::empty()
    } else if separator.separates(text[n - 1]) && (separator.keeps_empty() || pending(
        text,
        separator,
        (n - 1) as nat,
    ).len() > 0) {
        complete(text, separator, (n - 1) as nat).push(pending(text, separator, (n - 1) as nat))
    } else {
        complete(text, separator, (n - 1) as nat)
    }
}

/// The pieces of `text`: the complete ones, and the one at the end if it
/// has a byte.
pub open spec fn pieces(text: Seq<u8>, separator: Separator) -> Seq<Seq<u8>> {
    if pending(text, separator, text.len()).len() > 0 {
        complete(text, separator, text.len()).push(pending(text, separator, text.len()))
    } else {
        complete(text, separator, text.len())
    }
}

/// The contents of byte vectors.
pub open spec fn contents(pieces: Seq<Vec<u8>>) -> Seq<Seq<u8>> {
    pieces.map_values(|piece: Vec<u8>| piece@)
}

/// Splits `text` into its pieces.
pub fn split(text: &[u8], separator: Separator) -> (found: Vec<Vec<u8>>)
    ensures
        contents(found@) == pieces(text@, separator),
{
    let mut found: Vec<Vec<u8>> = Vec::new();
    let mut piece: Vec<u8> = Vec::new();
    let mut i: usize = 0;
    while i < text.len()
        invariant
            i <= text@.len(),
            piece@ == pending(text@, separator, i as nat),
            contents(found@) == complete(text@, separator, i as nat),
        decreases text@.len() - i,
    {
        let byte = text[i];
        let ends = match separator {
            Separator::Space => byte == 0x20 || (0x09 <= byte && byte <= 0x0d),
            Separator::Newline => byte == 0x0a,
        };
        let keeps_empty = match separator {
            Separator::Space => false,
            Separator::Newline => true,
        };
        if ends {
            if keeps_empty || piece.len() > 0 {
                let ghost before = found@;
                found.push(piece);
                assert(contents(found@) == contents(before).push(
                    pending(text@, separator, i as nat),
                ));
            }
            piece = Vec::new();
        } else {
            piece.push(byte);
        }
        i += 1;
    }
    if piece.len() > 0 {
        let ghost before = found@;
        found.push(piece);
        assert(contents(found@) == contents(before).push(
            pending(text@, separator, text@.len()),
        ));
    }
    found
}

/// The value of `byte` as a digit in base `radix`: the digits are `0` to
/// `9` and then the letters, of either case, and only the digits below the
/// base count.
pub open spec fn digit_value(byte: u8, radix: u64) -> Option<u64> {
    let value: int = if 0x30 <= byte <= 0x39 {
        byte - 0x30
    } else if 0x61 <= byte <= 0x7a {
        byte - 0x61 + 10
    } else if 0x41 <= byte <= 0x5a {
        byte - 0x41 + 10
    } else {
        radix as int
    };
    if value < radix {
        Some(value as u64)
    } else {
        None
    }
}

/// The number that a sequence of digits stands for in base `radix`, if all
/// of them are digits.
pub open spec fn digits_value(digits: Seq<u8>, radix: u64) -> Option<nat>
    decreases digits.len(),
{
    if digits.len() == 0 {
        Some(0)
    } else {
        match (digits_value(digits.drop_last(), radix), digit_value(digits.last(), radix)) {
            (Some(high), Some(low)) => Some(high * radix as nat + low as nat),
            _ => None,
        }
    }
}

/// The 64-bit number that `text` stands for in base `radix`: an optional
/// plus sign and then at least one digit, with a value that fits in 64
/// bits.
pub open spec fn spec_parse_number(text: Seq<u8>, radix: u64) -> Option<u64> {
    let digits = if text.len() > 0 && text[0] == 0x2b {
        text.drop_first()
    } else {
        text
    };
    if digits.len() == 0 {
        None
    } else {
        match digits_value(digits, radix) {
            Some(value) => if value <= u64::MAX {
                Some(value as u64)
            } else {
                None
            },
            None => None,
        }
    }
}

/// The 64-bit number that `text` stands for in hexadecimal.
pub open spec fn spec_parse_hex(text: Seq<u8>) -> Option<u64> {
    spec_parse_number(text, 16)
}

/// The 64-bit number that `text` stands for in decimal.
pub open spec fn spec_parse_decimal(text: Seq<u8>) -> Option<u64> {
    spec_parse_number(text, 10)
}

/// A sequence of digits stands for a number only if each of its beginnings
/// does, and for one that is no smaller.
proof fn lemma_digits_value_grows(digits: Seq<u8>, radix: u64, n: int)
    requires
        0 <= n <= digits.len(),
        radix >= 1,
    ensures
        digits_value(digits, radix) matches Some(value) ==> digits_value(
            digits.subrange(0, n),
            radix,
        ) matches Some(head) && head <= value,
    decreases digits.len() - n,
{
    if n == digits.len() {
        assert(digits.subrange(0, n) == digits);
    } else {
        lemma_digits_value_grows(digits, radix, n + 1);
        assert(digits.subrange(0, n + 1).drop_last() == digits.subrange(0, n));
        match digits_value(digits.subrange(0, n), radix) {
            Some(head) => {
                assert(head * radix >= head) by (nonlinear_arith)
                    requires
                        radix >= 1,
                        head >= 0,
                ;
            },
            None => {},
        }
    }
}

/// Reads a 64-bit number in base 10 or 16.
fn parse_number(text: &[u8], radix: u64) -> (value: Option<u64>)
    requires
        radix == 10 || radix == 16,
    ensures
        value == spec_parse_number(text@, radix),
{
    let first: usize = if text.len() > 0 && text[0] == 0x2b {
        1
    } else {
        0
    };
    if first == text.len() {
        return None;
    }
    let ghost digits = text@.subrange(first as int, text@.len() as int);
    assert(first == 1 ==> digits == text@.drop_first());
    assert(first == 0 ==> digits == text@);
    let mut value: u64 = 0;
    let mut i: usize = first;
    while i < text.len()
        invariant
            radix == 10 || radix == 16,
            first <= i <= text@.len(),
            digits == text@.subrange(first as int, text@.len() as int),
            digits.len() > 0,
            spec_parse_number(text@, radix) == match digits_value(digits, radix) {
                Some(value) => if value <= u64::MAX {
                    Some(value as u64)
                } else {
                    None
                },
                None => None::<u64>,
            },
            digits_value(digits.subrange(0, i - first), radix) == Some(value as nat),
        decreases text@.len() - i,
    {
        let byte = text[i];
        let digit: u64 = if 0x30 <= byte && byte <= 0x39 {
            (byte - 0x30) as u64
        } else if 0x61 <= byte && byte <= 0x7a {
            (byte - 0x61 + 10) as u64
        } else if 0x41 <= byte && byte <= 0x5a {
            (byte - 0x41 + 10) as u64
        } else {
            radix
        };
        proof {
            assert(digits.subrange(0, i - first + 1).drop_last() == digits.subrange(0, i - first));
            assert(digits.subrange(0, i - first + 1).last() == byte);
            lemma_digits_value_grows(digits, radix, i - first + 1);
        }
        if digit >= radix {
            return None;
        }
        if value > (u64::MAX - digit) / radix {
            assert(value * radix + digit > u64::MAX) by (nonlinear_arith)
                requires
                    value > (u64::MAX - digit) / (radix as int),
                    radix == 10 || radix == 16,
                    digit < radix,
            ;
            return None;
        }
        assert(value * radix + digit <= u64::MAX) by (nonlinear_arith)
            requires
                value <= (u64::MAX - digit) / (radix as int),
                radix == 10 || radix == 16,
                digit < radix,
        ;
        value = value * radix + digit;
        i += 1;
    }
    assert(digits.subrange(0, i - first) == digits);
    Some(value)
}

/// Reads a 64-bit number in hexadecimal: an optional plus sign and then at
/// least one digit, upper or lower case. Anything else, and a number that
/// does not fit in 64 bits, is refused.
pub fn parse_hex(text: &[u8]) -> (value: Option<u64>)
    ensures
        value == spec_parse_hex(text@),
{
    parse_number(text, 16)
}

/// Reads a 64-bit number in decimal: an optional plus sign and then at
/// least one digit. Anything else, and a number that does not fit in 64
/// bits, is refused.
pub fn parse_decimal(text: &[u8]) -> (value: Option<u64>)
    ensures
        value == spec_parse_decimal(text@),
{
    parse_number(text, 10)
}

} // verus!
