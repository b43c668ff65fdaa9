//! Calendar types of the `chrono` crate, carried through the core as
//! opaque values, and their `Debug` text for log messages.

use vstd::prelude::*;

verus! {

#[verifier::external_type_specification]
#[verifier::external_body]
pub struct ExNaiveDateTime(chrono::NaiveDateTime);

#[verifier::external_type_specification]
#[verifier::external_body]
pub struct ExNaiveDate(chrono::NaiveDate);

/// `Debug` text of a date-time.
pub uninterp spec fn naive_date_time_debug_text(v: chrono::NaiveDateTime) -> Seq<char>;

/// `Debug` text of a date.
pub uninterp spec fn naive_date_debug_text(v: chrono::NaiveDate) -> Seq<char>;

/// `<chrono::NaiveDateTime as Debug>::fmt` through `format!`: the ISO-like
/// `date T time` text, a function of the value alone. Its characters are
/// not stated here.
#[verifier::external_body]
pub(crate) fn naive_date_time_debug(v: &chrono::NaiveDateTime) -> (r: String)
    ensures
        r@ == naive_date_time_debug_text(*v),
{
    format!("{v:?}")
}

/// `<chrono::NaiveDate as Debug>::fmt` through `format!`: the ISO
/// `YYYY-MM-DD` text, a function of the value alone. Its characters are
/// not stated here.
#[verifier::external_body]
pub(crate) fn naive_date_debug(v: &chrono::NaiveDate) -> (r: String)
    ensures
        r@ == naive_date_debug_text(*v),
{
    format!("{v:?}")
}

} // verus!
