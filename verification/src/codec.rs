//! The scalar codec: one Unicode scalar value to its UTF-8 bytes and back.

use vstd::prelude::*;
use vstd::utf8::*;
use crate::error::CTypeError;

verus! {

/// The UTF-8 form of one scalar value.
pub open spec fn utf8_of(c: char) -> Seq<u8> {
    encode_scalar(c as u32)
}

/// Whether the scalar value lies in the ASCII subset, code points 0 to 127.
pub open spec fn is_ascii_scalar(c: char) -> bool {
    c as u32 <= 0x7f
}

/// The number of bytes of the UTF-8 form of `c`.
pub fn utf8_length(c: char) -> (n: usize)
    ensures
        n == utf8_of(c).len(),
        1 <= n <= 4,
        n == 1 <==> is_ascii_scalar(c),
{
    let v: u32 = c as u32;
    if v < 0x80 {
        1
    } else if v < 0x800 {
        2
    } else if v < 0x10000 {
        3
    } else {
        4
    }
}

/// The UTF-8 form of `c` in a buffer of exactly `utf8_length(c)` bytes.
pub fn utf8_bytes(c: &char) -> (buf: Vec<u8>)
    ensures
        buf@ == utf8_of(*c),
        buf@ == encode_utf8(seq![*c]),
        buf.len() == 1 <==> is_ascii_scalar(*c),
        is_ascii_scalar(*c) ==> buf@ == seq![*c as u8],
{
    let v: u32 = *c as u32;
    let length = utf8_length(*c);
    let mut buf: Vec<u8> = Vec::with_capacity(length);
    proof {
        lemma_payload_fits_a_byte(v);
    }
    if length == 1 {
        buf.push((v & 0x7F) as u8);
    } else if length == 2 {
        buf.push(0xC0 | ((v >> 6) & 0x1F) as u8);
        buf.push(0x80 | (v & 0x3F) as u8);
    } else if length == 3 {
        buf.push(0xE0 | ((v >> 12) & 0x0F) as u8);
        buf.push(0x80 | ((v >> 6) & 0x3F) as u8);
        buf.push(0x80 | (v & 0x3F) as u8);
    } else {
        buf.push(0xF0 | ((v >> 18) & 0x7) as u8);
        buf.push(0x80 | ((v >> 12) & 0x3F) as u8);
        buf.push(0x80 | ((v >> 6) & 0x3F) as u8);
        buf.push(0x80 | (v & 0x3F) as u8);
    }
    proof {
        assert(buf@ =~= utf8_of(*c));
        lemma_single_scalar(*c);
        if is_ascii_scalar(*c) {
            assert((v & 0x7F) as u8 == v as u8) by (bit_vector)
                requires
                    v <= 0x7f,
            ;
            assert(buf@ =~= seq![*c as u8]);
        }
    }
    buf
}

/// Every group of payload bits that goes into one byte of an encoding is
/// below 256, so that narrowing it to a byte loses nothing.
proof fn lemma_payload_fits_a_byte(v: u32)
    by (bit_vector)
    ensures
        v & 0x7F <= 0x7f,
        v & 0x3F <= 0x3f,
        (v >> 6) & 0x1F <= 0x1f,
        (v >> 6) & 0x3F <= 0x3f,
        (v >> 12) & 0x0F <= 0x0f,
        (v >> 12) & 0x3F <= 0x3f,
        (v >> 18) & 0x7 <= 0x7,
{
}

/// Encoding a one-element sequence is encoding its element.
pub proof fn lemma_single_scalar(c: char)
    ensures
        encode_utf8(seq![c]) == utf8_of(c),
        valid_utf8(utf8_of(c)),
        decode_utf8(utf8_of(c)) == seq![c],
{
    let one = seq![c];
    assert(one.drop_first() =~= Seq::<char>::empty());
    assert(encode_utf8(one.drop_first()) =~= Seq::<u8>::empty()) by {
        reveal_with_fuel(encode_utf8, 1);
    }
    assert(encode_utf8(one) =~= utf8_of(c)) by {
        reveal_with_fuel(encode_utf8, 2);
    }
    encode_utf8_valid_utf8(one);
    encode_utf8_decode_utf8(one);
}

/// What the standard library's `char::from_u32` returns: the scalar value
/// with the given number, and nothing for a surrogate or a number above
/// U+10FFFF.
pub assume_specification[ char::from_u32 ](i: u32) -> (r: Option<char>)
    ensures
        is_scalar(i) ==> r == Some(i as char),
        !is_scalar(i) ==> r is None,
;

/// What a byte sequence holds when it is read as the UTF-8 form of exactly
/// one scalar value.
pub open spec fn decode_one(bytes: Seq<u8>) -> Result<char, CTypeError> {
    if !valid_utf8(bytes) {
        Err(CTypeError::InvalidUtf8)
    } else if decode_utf8(bytes).len() != 1 {
        Err(CTypeError::NotOneScalar)
    } else {
        Ok(decode_utf8(bytes)[0])
    }
}

/// The bytes of `bytes` from `start` on.
spec fn tail_from(bytes: Seq<u8>, start: int) -> Seq<u8> {
    bytes.subrange(start, bytes.len() as int)
}

fn is_continuation(b: u8) -> (r: bool)
    ensures
        r == is_continuation_byte(b),
{
    0x80 <= b && b <= 0xbf
}

/// Reads the scalar value whose encoding begins at `start`, with the number
/// of bytes it takes, if a well-formed one begins there.
fn first_scalar(bytes: &[u8], start: usize) -> (r: Option<(char, usize)>)
    requires
        start < bytes.len(),
    ensures
        r is Some <==> valid_first_scalar(tail_from(bytes@, start as int)),
        r matches Some((c, n)) ==> {
            &&& c == decode_first_scalar(tail_from(bytes@, start as int)) as char
            &&& n == length_of_first_scalar(tail_from(bytes@, start as int))
            &&& 1 <= n <= 4
            &&& start + n <= bytes.len()
        },
{
    let ghost tail = tail_from(bytes@, start as int);
    let room: usize = bytes.len() - start;
    let b0: u8 = bytes[start];
    assert(tail[0] == b0);
    let cp: u32;
    let n: usize;
    if b0 <= 0x7f {
        cp = (b0 & 0x7F) as u32;
        n = 1;
        assert(cp <= 0x7f) by (bit_vector)
            requires
                cp == (b0 & 0x7F) as u32,
        ;
    } else if 0xc0 <= b0 && b0 <= 0xdf {
        if room < 2 {
            return None;
        }
        let b1: u8 = bytes[start + 1];
        assert(tail[1] == b1);
        if !is_continuation(b1) {
            return None;
        }
        cp = (((b0 & 0x1F) as u32) << 6) | ((b1 & 0x3f) as u32);
        n = 2;
        assert(cp <= 0x7ff) by (bit_vector)
            requires
                cp == (((b0 & 0x1F) as u32) << 6) | ((b1 & 0x3f) as u32),
        ;
        if cp < 0x80 {
            return None;
        }
    } else if 0xe0 <= b0 && b0 <= 0xef {
        if room < 3 {
            return None;
        }
        let b1: u8 = bytes[start + 1];
        let b2: u8 = bytes[start + 2];
        assert(tail[1] == b1 && tail[2] == b2);
        if !is_continuation(b1) || !is_continuation(b2) {
            return None;
        }
        cp = (((b0 & 0x0F) as u32) << 12) | (((b1 & 0x3f) as u32) << 6) | ((b2 & 0x3f) as u32);
        n = 3;
        assert(cp <= 0xffff) by (bit_vector)
            requires
                cp == (((b0 & 0x0F) as u32) << 12) | (((b1 & 0x3f) as u32) << 6) | ((b2
                    & 0x3f) as u32),
        ;
        if cp < 0x800 || (0xD800 <= cp && cp <= 0xDFFF) {
            return None;
        }
    } else if 0xf0 <= b0 && b0 <= 0xf7 {
        if room < 4 {
            return None;
        }
        let b1: u8 = bytes[start + 1];
        let b2: u8 = bytes[start + 2];
        let b3: u8 = bytes[start + 3];
        assert(tail[1] == b1 && tail[2] == b2 && tail[3] == b3);
        if !is_continuation(b1) || !is_continuation(b2) || !is_continuation(b3) {
            return None;
        }
        cp = (((b0 & 0x07) as u32) << 18) | (((b1 & 0x3f) as u32) << 12) | (((b2 & 0x3f) as u32)
            << 6) | ((b3 & 0x3f) as u32);
        n = 4;
        if cp < 0x10000 || cp > 0x10ffff {
            return None;
        }
    } else {
        return None;
    }
    assert(valid_first_scalar(tail));
    assert(cp == decode_first_scalar(tail));
    assert(is_scalar(cp));
    match char::from_u32(cp) {
        Some(c) => Some((c, n)),
        None => None,
    }
}

/// Whether the bytes from `start` on are valid UTF-8.
fn valid_utf8_from(bytes: &[u8], start: usize) -> (r: bool)
    requires
        start <= bytes.len(),
    ensures
        r == valid_utf8(tail_from(bytes@, start as int)),
{
    let len: usize = bytes.len();
    let mut i: usize = start;
    while i < len
        invariant
            start <= i <= len,
            len == bytes.len(),
            valid_utf8(tail_from(bytes@, start as int)) == valid_utf8(
                tail_from(bytes@, i as int),
            ),
        decreases len - i,
    {
        let ghost tail = tail_from(bytes@, i as int);
        match first_scalar(bytes, i) {
            None => {
                return false;
            },
            Some((_, n)) => {
                assert(pop_first_scalar(tail) =~= tail_from(bytes@, i + n));
                i = i + n;
            },
        }
    }
    true
}

/// Reads `bytes` as the UTF-8 form of exactly one scalar value.
pub fn scalar_from_utf8(bytes: &[u8]) -> (r: Result<char, CTypeError>)
    ensures
        r == decode_one(bytes@),
{
    let len: usize = bytes.len();
    assert(tail_from(bytes@, 0) =~= bytes@);
    if len == 0 {
        return Err(CTypeError::NotOneScalar);
    }
    match first_scalar(bytes, 0) {
        None => Err(CTypeError::InvalidUtf8),
        Some((c, n)) => {
            let ghost rest = tail_from(bytes@, n as int);
            assert(pop_first_scalar(bytes@) =~= rest);
            if !valid_utf8_from(bytes, n) {
                Err(CTypeError::InvalidUtf8)
            } else if n == len {
                assert(decode_utf8(bytes@) =~= seq![c]) by {
                    reveal_with_fuel(decode_utf8, 2);
                }
                Ok(c)
            } else {
                assert(decode_utf8(bytes@).len() >= 2) by {
                    reveal_with_fuel(decode_utf8, 2);
                }
                Err(CTypeError::NotOneScalar)
            }
        },
    }
}

/// Decoding undoes encoding, and only the UTF-8 form of a scalar value
/// decodes to it.
pub proof fn lemma_decode_one_inverts(c: char, bytes: Seq<u8>)
    ensures
        decode_one(utf8_of(c)) == Ok::<char, CTypeError>(c),
        decode_one(bytes) == Ok::<char, CTypeError>(c) ==> bytes == utf8_of(c),
{
    lemma_single_scalar(c);
    if decode_one(bytes) == Ok::<char, CTypeError>(c) {
        decode_utf8_encode_utf8(bytes);
        assert(decode_utf8(bytes) =~= seq![c]);
    }
}

} // verus!
