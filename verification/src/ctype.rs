//! The classification service: `is_space`, `is_blank`, `to_uppercase` and
//! `to_lowercase` on one scalar value.
//!
//! The answers of the native locale facility depend on the locale that is
//! active when the facility runs, so the service does not hold them. A call
//! opens a query and yields a [`Stage`]: either the finished answer, or the
//! one native call that has to be made next. The caller makes that call and
//! hands what came back to [`Stage::advance`], until the stage is final.

use vstd::prelude::*;
use crate::bridge::{
    ascii_class,
    class_from_native,
    class_of,
    is_ascii_class,
    scalar_from_native,
    scalar_of,
    wide_from_native,
    wide_of,
    Case,
    Class,
    WideCode,
};
use crate::codec::{is_ascii_scalar, utf8_bytes, utf8_of};
use crate::error::CTypeError;

verus! {

/// What is asked of a scalar value.
#[derive(Clone, Copy, Debug, PartialEq, Eq, Structural)]
pub enum Query {
    /// Membership in a class.
    Class(Class),
    /// Its form in the other case.
    Case(Case),
}

/// Where a query stands.
#[derive(Debug, PartialEq, Eq)]
pub enum Stage {
    /// The native conversion from UTF-8 has to turn `bytes` into a wide code.
    ToWide { query: Query, bytes: Vec<u8> },
    /// The native test for `class` has to be made on `wide`.
    Classify { class: Class, wide: WideCode },
    /// The native mapping to `case` has to be applied to `wide`.
    Convert { case: Case, wide: WideCode },
    /// The native conversion to UTF-8 has to turn `wide` into bytes.
    FromWide { wide: WideCode },
    /// The answer to a class query.
    Flag(bool),
    /// The answer to a case query.
    Scalar(char),
    /// The call failed, and has no answer.
    Failed(CTypeError),
}

/// A stage as a mathematical value.
pub enum StageView {
    ToWide { query: Query, bytes: Seq<u8> },
    Classify { class: Class, wide: WideCode },
    Convert { case: Case, wide: WideCode },
    FromWide { wide: WideCode },
    Flag(bool),
    Scalar(char),
    Failed(CTypeError),
}

impl View for Stage {
    type V = StageView;

    open spec fn view(&self) -> StageView {
        match *self {
            Stage::ToWide { query, bytes } => StageView::ToWide { query, bytes: bytes@ },
            Stage::Classify { class, wide } => StageView::Classify { class, wide },
            Stage::Convert { case, wide } => StageView::Convert { case, wide },
            Stage::FromWide { wide } => StageView::FromWide { wide },
            Stage::Flag(b) => StageView::Flag(b),
            Stage::Scalar(c) => StageView::Scalar(c),
            Stage::Failed(e) => StageView::Failed(e),
        }
    }
}

/// What one native call handed back. `errno` is the host error code as it
/// stood right after the call.
#[derive(Clone, Copy, Debug)]
pub enum Reply {
    /// From the conversion of UTF-8 to a wide code: its status and its output.
    Wide { status: u8, wide: WideCode, errno: i32 },
    /// From a classification: its verdict.
    Class { verdict: i8, errno: i32 },
    /// From a case mapping: the mapped wide code.
    Mapped { wide: WideCode },
    /// From the conversion of a wide code to UTF-8: the length it reported
    /// and the buffer it wrote into.
    Utf8 { length: isize, buf: [u8; 4], errno: i32 },
}

impl StageView {
    /// Whether the query is over.
    pub open spec fn is_final(self) -> bool {
        self is Flag || self is Scalar || self is Failed
    }

    /// Whether `reply` is an answer to the call that this stage asks for.
    pub open spec fn is_answered_by(self, reply: Reply) -> bool {
        match self {
            StageView::ToWide { .. } => reply is Wide,
            StageView::Classify { .. } => reply is Class,
            StageView::Convert { .. } => reply is Mapped,
            StageView::FromWide { .. } => reply is Utf8,
            _ => false,
        }
    }

    /// The stage that follows when `reply` comes in. A reply that does not
    /// answer the pending call changes nothing, and neither does any reply to
    /// a final stage.
    pub open spec fn advance(self, reply: Reply) -> StageView {
        match (self, reply) {
            (StageView::ToWide { query, .. }, Reply::Wide { status, wide, errno }) => match wide_of(
                status,
                wide,
                errno,
            ) {
                Err(e) => StageView::Failed(e),
                Ok(w) => match query {
                    Query::Class(class) => StageView::Classify { class, wide: w },
                    Query::Case(case) => StageView::Convert { case, wide: w },
                },
            },
            (StageView::Classify { class, .. }, Reply::Class { verdict, errno }) => match class_of(
                class,
                verdict,
                errno,
            ) {
                Ok(b) => StageView::Flag(b),
                Err(e) => StageView::Failed(e),
            },
            (StageView::Convert { .. }, Reply::Mapped { wide }) => StageView::FromWide { wide },
            (StageView::FromWide { .. }, Reply::Utf8 { length, buf, errno }) => match scalar_of(
                length,
                buf@,
                errno,
            ) {
                Ok(c) => StageView::Scalar(c),
                Err(e) => StageView::Failed(e),
            },
            _ => self,
        }
    }
}

/// The first stage of a query on `c`. A class query on the ASCII subset is
/// answered at once, from the ASCII sets alone; every other query begins with
/// the conversion of the UTF-8 form of `c`.
pub open spec fn begin(query: Query, c: char) -> StageView {
    match query {
        Query::Class(class) if is_ascii_scalar(c) => StageView::Flag(ascii_class(class, c as u8)),
        _ => StageView::ToWide { query, bytes: utf8_of(c) },
    }
}

/// Opens a query on `c`.
pub fn open_query(query: Query, c: char) -> (stage: Stage)
    ensures
        stage@ == begin(query, c),
{
    let bytes = utf8_bytes(&c);
    match query {
        Query::Class(class) => {
            if bytes.len() == 1 {
                Stage::Flag(is_ascii_class(class, bytes[0]))
            } else {
                Stage::ToWide { query, bytes }
            }
        },
        Query::Case(_) => Stage::ToWide { query, bytes },
    }
}

impl Stage {
    /// Whether the query is over.
    pub fn is_final(&self) -> (r: bool)
        ensures
            r == self@.is_final(),
    {
        match self {
            Stage::Flag(_) => true,
            Stage::Scalar(_) => true,
            Stage::Failed(_) => true,
            _ => false,
        }
    }

    /// Takes the answer of a native call and moves to the next stage.
    pub fn advance(self, reply: Reply) -> (next: Stage)
        ensures
            next@ == self@.advance(reply),
    {
        match self {
            Stage::ToWide { query, bytes } => match reply {
                Reply::Wide { status, wide, errno } => match wide_from_native(status, wide, errno) {
                    Err(e) => Stage::Failed(e),
                    Ok(w) => match query {
                        Query::Class(class) => Stage::Classify { class, wide: w },
                        Query::Case(case) => Stage::Convert { case, wide: w },
                    },
                },
                _ => Stage::ToWide { query, bytes },
            },
            Stage::Classify { class, wide } => match reply {
                Reply::Class { verdict, errno } => match class_from_native(class, verdict, errno) {
                    Ok(b) => Stage::Flag(b),
                    Err(e) => Stage::Failed(e),
                },
                _ => Stage::Classify { class, wide },
            },
            Stage::Convert { case, wide } => match reply {
                Reply::Mapped { wide: mapped } => Stage::FromWide { wide: mapped },
                _ => Stage::Convert { case, wide },
            },
            Stage::FromWide { wide } => match reply {
                Reply::Utf8 { length, buf, errno } => match scalar_from_native(
                    length,
                    &buf,
                    errno,
                ) {
                    Ok(c) => Stage::Scalar(c),
                    Err(e) => Stage::Failed(e),
                },
                _ => Stage::FromWide { wide },
            },
            Stage::Flag(b) => Stage::Flag(b),
            Stage::Scalar(c) => Stage::Scalar(c),
            Stage::Failed(e) => Stage::Failed(e),
        }
    }
}

/// Locale-aware classification and case conversion of a value that stands
/// for one scalar value.
pub trait CType {
    /// The scalar value that `self` stands for.
    spec fn scalar(&self) -> char;

    /// Opens the query whether `self` is a whitespace character: one of
    /// space, form feed, line feed, carriage return, horizontal tab and
    /// vertical tab, or a whitespace character of the active locale.
    fn is_space(&self) -> (stage: Stage)
        ensures
            stage@ == begin(Query::Class(Class::Space), self.scalar()),
    ;

    /// Opens the query whether `self` is a blank character: space or
    /// horizontal tab, or a blank character of the active locale.
    fn is_blank(&self) -> (stage: Stage)
        ensures
            stage@ == begin(Query::Class(Class::Blank), self.scalar()),
    ;

    /// Opens the query for the uppercase form of `self` in the active
    /// locale. Only one-to-one mappings can be had.
    fn to_uppercase(&self) -> (stage: Stage)
        ensures
            stage@ == begin(Query::Case(Case::Upper), self.scalar()),
    ;

    /// Opens the query for the lowercase form of `self` in the active
    /// locale. Only one-to-one mappings can be had.
    fn to_lowercase(&self) -> (stage: Stage)
        ensures
            stage@ == begin(Query::Case(Case::Lower), self.scalar()),
    ;
}

impl CType for char {
    open spec fn scalar(&self) -> char {
        *self
    }

    fn is_space(&self) -> (stage: Stage) {
        open_query(Query::Class(Class::Space), *self)
    }

    fn is_blank(&self) -> (stage: Stage) {
        open_query(Query::Class(Class::Blank), *self)
    }

    fn to_uppercase(&self) -> (stage: Stage) {
        open_query(Query::Case(Case::Upper), *self)
    }

    fn to_lowercase(&self) -> (stage: Stage) {
        open_query(Query::Case(Case::Lower), *self)
    }
}

} // verus!
