//! What the machine supplies: the time of day and fresh identifiers.

use vstd::prelude::*;
use crate::digest::is_hex_char;

verus! {

/// `Utc::now().timestamp()` of the `chrono` crate: the seconds since the
/// Unix epoch on this machine's clock. Nothing is claimed of the value.
#[verifier::external_body]
pub(crate) fn unix_now() -> i64 {
    chrono::Utc::now().timestamp()
}

/// Whether `id` has the shape of a hyphenated UUID: 36 characters, hyphens
/// at positions 8, 13, 18 and 23, lower-case hexadecimal digits elsewhere.
pub open spec fn is_uuid_text(id: Seq<char>) -> bool {
    &&& id.len() == 36
    &&& forall|i: int|
        0 <= i < 36 ==> if i == 8 || i == 13 || i == 18 || i == 23 {
            #[trigger] id[i] == '-'
        } else {
            is_hex_char(id[i])
        }
}

/// `Uuid::new_v4().to_string()` of the `uuid` crate: a random UUID in its
/// hyphenated lower-case form. The contract claims the shape of the text
/// and nothing of its digits.
#[verifier::external_body]
pub(crate) fn random_uuid() -> (id: String)
    ensures
        is_uuid_text(id@),
{
    uuid::Uuid::new_v4().to_string()
}

} // verus!
