//! The cleanup task's computation: how far back finished jobs are kept.

use vstd::prelude::*;
use crate::text::{concat3, nat_digits, u64_decimal};

verus! {

/// The SQLite date modifier that goes back `days` days: "-{days} days".
pub fn retention_modifier(days: u32) -> (r: String)
    ensures
        r@ == "-"@ + nat_digits(days as nat) + " days"@,
{
    let d = u64_decimal(days as u64);
    concat3("-", d.as_str(), " days")
}

} // verus!
