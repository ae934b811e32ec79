use vstd::prelude::*;

verus! {

/// Relies on `uuid::Uuid::new_v4` for a random identifier, rendered by its
/// `Display` impl in the hyphenated form of 36 characters.
#[verifier::external_body]
pub(crate) fn new_post_id() -> (r: String)
    ensures
        r@.len() == 36,
{
    uuid::Uuid::new_v4().to_string()
}

/// Relies on `chrono::Utc::now` for the current instant and on
/// `DateTime::to_rfc3339` to render it, as in `1996-12-19T16:39:57+00:00`:
/// at least 25 characters, more for a fraction of a second or a year past 9999.
#[verifier::external_body]
pub(crate) fn now_rfc3339() -> (r: String)
    ensures
        r@.len() >= 25,
{
    chrono::Utc::now().to_rfc3339()
}

} // verus!
