//! Timestamps in the form of RFC 3339.

use vstd::prelude::*;

verus! {

/// The timestamp that `text` denotes by RFC 3339, written out again in that
/// form: `None` where `text` denotes none.
pub uninterp spec fn rfc3339_form(text: Seq<char>) -> Option<Seq<char>>;

/// What an optional text holds.
pub open spec fn optional_text(text: Option<String>) -> Option<Seq<char>> {
    match text {
        Some(t) => Some(t@),
        None => None,
    }
}

/// Reads `text` with `chrono::DateTime::parse_from_rfc3339` and writes the
/// timestamp out with `chrono::DateTime::to_rfc3339`.
///
/// Trusted: that the outcome depends on `text` alone, which is all that
/// [`rfc3339_form`] stands for. Neither function panics: the first reports
/// what it cannot read as an error, the second writes into a `String`.
#[verifier::external_body]
pub(crate) fn reformat_rfc3339(text: &str) -> (r: Option<String>)
    ensures
        optional_text(r) == rfc3339_form(text@),
{
    match chrono::DateTime::parse_from_rfc3339(text) {
        Ok(moment) => Some(moment.to_rfc3339()),
        Err(_) => None,
    }
}

} // verus!
