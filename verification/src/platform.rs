//! What the engine takes from its surroundings: fresh identifiers, the
//! clock and random numbers. Nothing is assumed of what they return.

use vstd::prelude::*;

verus! {

/// `uuid::Uuid::new_v4`, printed by `to_string`: the text of a fresh random
/// identifier. The text is in the hyphenated form, which has 36 characters;
/// nothing else is claimed of it.
#[verifier::external_body]
pub(crate) fn new_uuid() -> (id: String)
    ensures
        id@.len() == 36,
{
    uuid::Uuid::new_v4().to_string()
}

/// `chrono::Utc::now`, read by `timestamp_millis`: the milliseconds since
/// the Unix epoch on the system clock. Nothing is claimed of the number.
#[verifier::external_body]
pub(crate) fn now_millis() -> (t: i64) {
    chrono::Utc::now().timestamp_millis()
}

/// `rand::random` at `u64`: a random 64-bit word. Nothing is claimed of it.
#[verifier::external_body]
pub(crate) fn random_word() -> (w: u64) {
    rand::random::<u64>()
}

} // verus!
