//! What the answers of the native locale facility mean.
//!
//! The facility itself is called by the embedding program. Each function here
//! takes what one native call handed back, as plain values, and says what the
//! answer is worth: a result, or one of the hard failures.

use vstd::prelude::*;
use vstd::slice::slice_subrange;
use crate::codec::{decode_one, scalar_from_utf8};
use crate::error::CTypeError;

verus! {

/// The native representation of one scalar value, as wide as the widest
/// argument that the native classification and mapping calls take.
pub type WideCode = i64;

/// The two locale-sensitive classes.
#[derive(Clone, Copy, Debug, PartialEq, Eq, Structural)]
pub enum Class {
    Space,
    Blank,
}

/// The two directions of case conversion.
#[derive(Clone, Copy, Debug, PartialEq, Eq, Structural)]
pub enum Case {
    Upper,
    Lower,
}

/// The ASCII whitespace set: space, form feed, line feed, carriage return,
/// horizontal tab and vertical tab.
pub open spec fn ascii_space(b: u8) -> bool {
    b == 0x20 || 0x09 <= b <= 0x0d
}

/// The ASCII blank set: space and horizontal tab.
pub open spec fn ascii_blank(b: u8) -> bool {
    b == 0x20 || b == 0x09
}

/// Membership of an ASCII byte in a class, which no locale changes.
pub open spec fn ascii_class(class: Class, b: u8) -> bool {
    match class {
        Class::Space => ascii_space(b),
        Class::Blank => ascii_blank(b),
    }
}

/// Tests one byte of the ASCII subset for membership in `class`.
pub fn is_ascii_class(class: Class, b: u8) -> (r: bool)
    ensures
        r == ascii_class(class, b),
{
    match class {
        Class::Space => b == 0x20 || (0x09 <= b && b <= 0x0d),
        Class::Blank => b == 0x20 || b == 0x09,
    }
}

/// The wide code that a native conversion from UTF-8 produced: its output
/// when the status is zero, a failure that carries the status and the host
/// error code otherwise.
pub open spec fn wide_of(status: u8, wide: WideCode, errno: i32) -> Result<WideCode, CTypeError> {
    if status == 0 {
        Ok(wide)
    } else {
        Err(CTypeError::Encode { status, errno })
    }
}

/// Reads the answer of the native conversion from UTF-8 to a wide code.
pub fn wide_from_native(status: u8, wide: WideCode, errno: i32) -> (r: Result<
    WideCode,
    CTypeError,
>)
    ensures
        r == wide_of(status, wide, errno),
        r is Ok <==> status == 0,
{
    if status == 0 {
        Ok(wide)
    } else {
        Err(CTypeError::Encode { status, errno })
    }
}

/// What a native classification answered. The whitespace test tells its
/// error sentinel, a negative verdict, from its two answers. The blank test
/// has no sentinel: every verdict but zero means blank.
pub open spec fn class_of(class: Class, verdict: i8, errno: i32) -> Result<bool, CTypeError> {
    match class {
        Class::Space => if verdict >= 0 {
            Ok(verdict != 0)
        } else {
            Err(CTypeError::Classify { errno })
        },
        Class::Blank => Ok(verdict != 0),
    }
}

/// Reads the answer of a native classification call.
pub fn class_from_native(class: Class, verdict: i8, errno: i32) -> (r: Result<bool, CTypeError>)
    ensures
        r == class_of(class, verdict, errno),
        r is Err <==> class == Class::Space && verdict < 0,
{
    match class {
        Class::Space => {
            if verdict >= 0 {
                Ok(verdict != 0)
            } else {
                Err(CTypeError::Classify { errno })
            }
        },
        Class::Blank => Ok(verdict != 0),
    }
}

/// The scalar value that a native conversion from a wide code wrote: the one
/// scalar value that the first `length` bytes of its buffer hold.
pub open spec fn scalar_of(length: isize, buf: Seq<u8>, errno: i32) -> Result<char, CTypeError> {
    if length <= 0 {
        Err(CTypeError::Decode { length, errno })
    } else if length > buf.len() {
        Err(CTypeError::Overrun { length })
    } else {
        decode_one(buf.subrange(0, length as int))
    }
}

/// Reads the answer of the native conversion from a wide code to UTF-8.
pub fn scalar_from_native(length: isize, buf: &[u8; 4], errno: i32) -> (r: Result<
    char,
    CTypeError,
>)
    ensures
        r == scalar_of(length, buf@, errno),
{
    if length <= 0 {
        Err(CTypeError::Decode { length, errno })
    } else if length > 4 {
        Err(CTypeError::Overrun { length })
    } else {
        let written = slice_subrange(buf.as_slice(), 0, length as usize);
        scalar_from_utf8(written)
    }
}

} // verus!
