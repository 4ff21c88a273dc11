//! Fresh identifiers for scanners and jobs.

use vstd::prelude::*;

verus! {

/// The length of an identifier made by `fresh_id`.
pub const FRESH_ID_LEN: usize = 36;

/// Makes an identifier with `uuid::Uuid::new_v4` and writes it in the
/// hyphenated lower-case form, which is 36 characters long whatever the
/// random bits are. Nothing else is claimed: two calls may or may not differ.
/// `uuid` gives up where the system has no random bits to offer.
#[verifier::external_body]
pub(crate) fn fresh_id() -> (id: String)
    ensures
        id@.len() == FRESH_ID_LEN,
{
    uuid::Uuid::new_v4().to_string()
}

} // verus!
