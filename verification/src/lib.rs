//! Locale-aware classification and case conversion of single Unicode scalar
//! values, written as a verified decision layer around a native wide-character
//! facility that the embedding program drives.

pub mod bridge;
pub mod codec;
pub mod ctype;
pub mod error;
pub mod locale;
