//! Points in time, in milliseconds since the start of 1970, and their text.
use vstd::prelude::*;
use crate::text::opt_text;

verus! {

/// The text that `mongodb::bson::DateTime::try_to_rfc3339_string` gives, if any.
pub uninterp spec fn rfc3339(millis: i64) -> Option<Seq<char>>;

/// Calls `mongodb::bson::DateTime::try_to_rfc3339_string`. Its result depends on the point in
/// time alone; there is none for a point that the format has no text for.
#[verifier::external_body]
pub(crate) fn iso(millis: i64) -> (r: Option<String>)
    ensures
        opt_text(r) == rfc3339(millis),
{
    mongodb::bson::DateTime::from_millis(millis).try_to_rfc3339_string().ok()
}

/// The text of an optional point in time.
pub open spec fn iso_opt_of(millis: Option<i64>) -> Option<Seq<char>> {
    match millis {
        Some(m) => rfc3339(m),
        None => None,
    }
}

/// The text of an optional point in time.
pub fn iso_opt(millis: Option<i64>) -> (r: Option<String>)
    ensures
        opt_text(r) == iso_opt_of(millis),
{
    match millis {
        Some(m) => iso(m),
        None => None,
    }
}

/// A point in time that is missing has no text, and one that is there has its own.
pub proof fn missing_times_have_no_text(millis: Option<i64>)
    ensures
        millis is None ==> iso_opt_of(millis) is None,
        millis is Some ==> iso_opt_of(millis) == rfc3339(millis->0),
{
}

} // verus!
