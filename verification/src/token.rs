//! Session token generation: a random, unguessable string issued at login.

use vstd::prelude::*;

verus! {

/// Relies on `uuid::Uuid::new_v4`: a random version-4 UUID, rendered in the
/// hyphenated form, which is 36 characters. Nothing is promised about the
/// value itself: it is drawn from a cryptographically secure source.
#[verifier::external_body]
pub fn new_session_token() -> (r: String)
    ensures
        r@.len() == 36,
{
    uuid::Uuid::new_v4().hyphenated().to_string()
}

} // verus!
