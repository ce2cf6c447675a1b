//! The hard failures of a classification or casing call.

use vstd::prelude::*;

verus! {

/// Why a call could not be completed. None of these is retried, and none is
/// replaced by a guessed answer.
#[derive(Clone, Copy, Debug, PartialEq, Eq, Structural)]
pub enum CTypeError {
    /// The native conversion from UTF-8 to a wide-character code reported a
    /// status other than zero.
    Encode { status: u8, errno: i32 },
    /// The native conversion from a wide-character code to UTF-8 reported a
    /// length that is not positive.
    Decode { length: isize, errno: i32 },
    /// The native conversion from a wide-character code to UTF-8 reported more
    /// bytes than its buffer holds.
    Overrun { length: isize },
    /// The bytes that the native conversion wrote are not valid UTF-8.
    InvalidUtf8,
    /// The bytes that the native conversion wrote are valid UTF-8 but do not
    /// hold exactly one scalar value.
    NotOneScalar,
    /// The native classification reported its error sentinel.
    Classify { errno: i32 },
}

} // verus!
