//! The active locale as a mathematical object, and what holds of the
//! service under every locale.
//!
//! Nothing here runs. A [`Locale`] fixes what each native call hands back for
//! each argument, which is what the native facility does for as long as the
//! active locale stays the same. Over it the answers of the service can be
//! written down in full and its laws proved.

use vstd::prelude::*;
use crate::bridge::{ascii_class, class_of, scalar_of, wide_of, Case, Class, WideCode};
use crate::codec::{is_ascii_scalar, utf8_of};
use crate::ctype::{begin, Query, Reply, StageView};
use crate::error::CTypeError;

verus! {

/// What the native facility hands back under one locale.
pub struct Locale {
    /// The conversion of UTF-8 bytes to a wide code: status, output and host
    /// error code.
    pub to_wide: spec_fn(Seq<u8>) -> (u8, WideCode, i32),
    /// The classification of a wide code: verdict and host error code.
    pub test: spec_fn(Class, WideCode) -> (i8, i32),
    /// The case mapping of a wide code.
    pub map: spec_fn(Case, WideCode) -> WideCode,
    /// The conversion of a wide code to UTF-8: reported length, buffer and
    /// host error code.
    pub from_wide: spec_fn(WideCode) -> (isize, [u8; 4], i32),
}

impl StageView {
    /// An upper bound on the native calls that are still to be made.
    pub open spec fn calls_left(self) -> nat {
        match self {
            StageView::ToWide { .. } => 3,
            StageView::Convert { .. } => 2,
            StageView::Classify { .. } => 1,
            StageView::FromWide { .. } => 1,
            _ => 0,
        }
    }
}

impl Locale {
    /// The answer of the native facility to the call that `stage` asks for.
    pub open spec fn reply(self, stage: StageView) -> Reply
        recommends
            !stage.is_final(),
    {
        match stage {
            StageView::ToWide { bytes, .. } => {
                let (status, wide, errno) = (self.to_wide)(bytes);
                Reply::Wide { status, wide, errno }
            },
            StageView::Classify { class, wide } => {
                let (verdict, errno) = (self.test)(class, wide);
                Reply::Class { verdict, errno }
            },
            StageView::Convert { case, wide } => Reply::Mapped { wide: (self.map)(case, wide) },
            StageView::FromWide { wide } => {
                let (length, buf, errno) = (self.from_wide)(wide);
                Reply::Utf8 { length, buf, errno }
            },
            _ => arbitrary(),
        }
    }

    /// The final stage that a query reaches from `stage` when every pending
    /// call is answered by the native facility.
    pub open spec fn settle(self, stage: StageView) -> StageView
        decreases stage.calls_left(),
    {
        if stage.is_final() {
            stage
        } else {
            self.settle(stage.advance(self.reply(stage)))
        }
    }

    /// The wide code of `c`.
    pub open spec fn wide(self, c: char) -> Result<WideCode, CTypeError> {
        let (status, wide, errno) = (self.to_wide)(utf8_of(c));
        wide_of(status, wide, errno)
    }

    /// The scalar value of a wide code.
    pub open spec fn scalar(self, wide: WideCode) -> Result<char, CTypeError> {
        let (length, buf, errno) = (self.from_wide)(wide);
        scalar_of(length, buf@, errno)
    }

    /// Whether `c` belongs to `class`: by the ASCII sets on the ASCII
    /// subset, by the native test on the wide code of `c` elsewhere.
    pub open spec fn classify(self, class: Class, c: char) -> Result<bool, CTypeError> {
        if is_ascii_scalar(c) {
            Ok(ascii_class(class, c as u8))
        } else {
            match self.wide(c) {
                Err(e) => Err(e),
                Ok(w) => {
                    let (verdict, errno) = (self.test)(class, w);
                    class_of(class, verdict, errno)
                },
            }
        }
    }

    /// The wide code that the native mapping to `case` gives for `c`.
    pub open spec fn mapped(self, case: Case, c: char) -> WideCode
        recommends
            self.wide(c) is Ok,
    {
        (self.map)(case, self.wide(c).unwrap())
    }

    /// The form of `c` in `case`: the scalar value of the native mapping of
    /// the wide code of `c`.
    pub open spec fn convert(self, case: Case, c: char) -> Result<char, CTypeError> {
        match self.wide(c) {
            Err(e) => Err(e),
            Ok(_) => self.scalar(self.mapped(case, c)),
        }
    }

    /// Whether a wide code that converts to a scalar value is the wide code
    /// of that scalar value.
    pub open spec fn round_trips(self) -> bool {
        forall|w: WideCode|
            (#[trigger] self.scalar(w)) matches Ok(c) ==> self.wide(c) == Ok::<
                WideCode,
                CTypeError,
            >(w)
    }

    /// Whether mapping to `case` a second time changes nothing.
    pub open spec fn maps_once(self, case: Case) -> bool {
        forall|w: WideCode|
            (self.map)(case, #[trigger] (self.map)(case, w)) == (self.map)(case, w)
    }
}

/// The final stage that stands for an answer to a class query.
pub open spec fn class_outcome(answer: Result<bool, CTypeError>) -> StageView {
    match answer {
        Ok(b) => StageView::Flag(b),
        Err(e) => StageView::Failed(e),
    }
}

/// The final stage that stands for an answer to a case query.
pub open spec fn case_outcome(answer: Result<char, CTypeError>) -> StageView {
    match answer {
        Ok(c) => StageView::Scalar(c),
        Err(e) => StageView::Failed(e),
    }
}

/// A class query that is driven to its end yields what the locale says of
/// the scalar value, or the failure that stopped it.
pub proof fn lemma_class_query_settles(locale: Locale, class: Class, c: char)
    ensures
        locale.settle(begin(Query::Class(class), c)) == class_outcome(locale.classify(class, c)),
{
    reveal_with_fuel(Locale::settle, 4);
}

/// A case query that is driven to its end yields what the locale says of
/// the scalar value, or the failure that stopped it.
pub proof fn lemma_case_query_settles(locale: Locale, case: Case, c: char)
    ensures
        locale.settle(begin(Query::Case(case), c)) == case_outcome(locale.convert(case, c)),
{
    reveal_with_fuel(Locale::settle, 4);
}

/// On the ASCII subset the whitespace set is the same under every locale:
/// space, form feed, line feed, carriage return, horizontal tab and vertical
/// tab are whitespace, and no other ASCII scalar value is. The query is
/// answered when it is opened, before any native call.
pub proof fn lemma_ascii_space_in_every_locale(locale: Locale, c: char)
    requires
        is_ascii_scalar(c),
    ensures
        locale.classify(Class::Space, c) == Ok::<bool, CTypeError>(
            c == ' ' || c == '\x0c' || c == '\n' || c == '\r' || c == '\t' || c == '\x0b',
        ),
        begin(Query::Class(Class::Space), c) == class_outcome(locale.classify(Class::Space, c)),
{
    let v = c as u32;
    assert(v as u8 == v) by (bit_vector)
        requires
            v <= 0x7f,
    ;
}

/// On the ASCII subset the blank set is the same under every locale: space
/// and horizontal tab are blank, and no other ASCII scalar value is, line
/// feed included. The query is answered when it is opened, before any native
/// call.
pub proof fn lemma_ascii_blank_in_every_locale(locale: Locale, c: char)
    requires
        is_ascii_scalar(c),
    ensures
        locale.classify(Class::Blank, c) == Ok::<bool, CTypeError>(c == ' ' || c == '\t'),
        begin(Query::Class(Class::Blank), c) == class_outcome(locale.classify(Class::Blank, c)),
{
    let v = c as u32;
    assert(v as u8 == v) by (bit_vector)
        requires
            v <= 0x7f,
    ;
}

/// Outside the ASCII subset a class is what the active locale makes it: the
/// answer to a class query is the verdict of the native test on the wide code
/// of the scalar value.
pub proof fn lemma_class_follows_locale(locale: Locale, class: Class, c: char)
    requires
        !is_ascii_scalar(c),
        locale.wide(c) is Ok,
    ensures
        locale.classify(class, c) == class_of(
            class,
            (locale.test)(class, locale.wide(c).unwrap()).0,
            (locale.test)(class, locale.wide(c).unwrap()).1,
        ),
{
}

/// Converting a scalar value to a case twice gives what converting it once
/// gives, wherever the mapped wide code is the wide code of the result and
/// the mapping leaves it as it is.
pub proof fn lemma_convert_twice(locale: Locale, case: Case, c: char)
    requires
        locale.convert(case, c) is Ok,
        locale.wide(locale.convert(case, c).unwrap()) == Ok::<WideCode, CTypeError>(
            locale.mapped(case, c),
        ),
        (locale.map)(case, locale.mapped(case, c)) == locale.mapped(case, c),
    ensures
        locale.convert(case, locale.convert(case, c).unwrap()) == locale.convert(case, c),
{
}

/// Case conversion is idempotent under a locale whose mapping to that case
/// changes nothing the second time and whose two conversions between UTF-8
/// and wide codes undo each other.
pub proof fn lemma_convert_idempotent(locale: Locale, case: Case, c: char)
    requires
        locale.round_trips(),
        locale.maps_once(case),
        locale.convert(case, c) is Ok,
    ensures
        locale.convert(case, locale.convert(case, c).unwrap()) == locale.convert(case, c),
{
    let m = locale.mapped(case, c);
    assert(locale.scalar(m) is Ok);
    assert((locale.map)(case, (locale.map)(case, locale.wide(c).unwrap())) == m);
    lemma_convert_twice(locale, case, c);
}

/// A scalar value that the native conversion cannot turn into a wide code
/// has no answer: every query on it that needs the wide code ends in the
/// failure that carries the status and the host error code of that
/// conversion.
pub proof fn lemma_encode_failure_ends_query(locale: Locale, query: Query, c: char)
    requires
        (locale.to_wide)(utf8_of(c)).0 != 0,
        query is Class ==> !is_ascii_scalar(c),
    ensures
        locale.settle(begin(query, c)) == StageView::Failed(
            CTypeError::Encode {
                status: (locale.to_wide)(utf8_of(c)).0,
                errno: (locale.to_wide)(utf8_of(c)).2,
            },
        ),
{
    reveal_with_fuel(Locale::settle, 4);
}

/// A mapped wide code that the native conversion cannot turn into exactly
/// one scalar value has no answer either: the case query ends in the failure
/// of that conversion, never in a scalar value.
pub proof fn lemma_decode_failure_ends_query(locale: Locale, case: Case, c: char)
    requires
        locale.wide(c) is Ok,
        locale.scalar(locale.mapped(case, c)) is Err,
    ensures
        locale.settle(begin(Query::Case(case), c)) == StageView::Failed(
            locale.scalar(locale.mapped(case, c)).unwrap_err(),
        ),
{
    lemma_case_query_settles(locale, case, c);
}

/// A class query ends in a flag or a failure, a case query in a scalar value
/// or a failure.
pub proof fn lemma_outcome_fits_query(locale: Locale, query: Query, c: char)
    ensures
        locale.settle(begin(query, c)).is_final(),
        query is Class ==> !(locale.settle(begin(query, c)) is Scalar),
        query is Case ==> !(locale.settle(begin(query, c)) is Flag),
{
    match query {
        Query::Class(class) => lemma_class_query_settles(locale, class, c),
        Query::Case(case) => lemma_case_query_settles(locale, case, c),
    }
}

/// Where the native mapping leaves the wide code of a scalar value as it is,
/// and the two native conversions undo each other on it, the case query
/// returns the scalar value unchanged.
pub proof fn lemma_no_mapping_is_identity(locale: Locale, case: Case, c: char)
    requires
        locale.wide(c) is Ok,
        locale.mapped(case, c) == locale.wide(c).unwrap(),
        locale.scalar(locale.wide(c).unwrap()) == Ok::<char, CTypeError>(c),
    ensures
        locale.convert(case, c) == Ok::<char, CTypeError>(c),
{
}

} // verus!
