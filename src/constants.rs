use vstd::prelude::*;

verus! {

/// 1 with 7 decimal places
pub const SCALAR_7: i128 = 1_0000000;

/// 1 with 12 decimal places
pub const SCALAR_12: i128 = 1_000_000_000_000;

/// Seconds per year
pub const SECONDS_PER_YEAR: i128 = 31536000;

} // verus!
