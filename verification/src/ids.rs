//! Fresh identifiers for jobs, schedules and workers.

use vstd::prelude::*;

verus! {

/// A fresh time-ordered identifier: `uuid::Uuid::now_v7()` rendered with
/// `to_string`. Its value comes from the clock and from chance, so only its
/// shape is stated: uuid renders it hyphenated, 36 characters long.
#[verifier::external_body]
pub fn new_id() -> (id: String)
    ensures
        id@.len() == 36,
{
    uuid::Uuid::now_v7().to_string()
}

} // verus!
