//! Tunable constants of the explorer.
use vstd::prelude::*;

verus! {

/// Performance points earned by a basic resource.
pub const BASIC_RESOURCE_WEIGHT: u64 = 10;

/// Performance points earned by an ordinary complex resource.
pub const COMPLEX_RESOURCE_WEIGHT: u64 = 15;

/// Need given to the resource the explorer has been told to produce.
pub const NEEDS_MAGIC_NUMBER: u64 = 100;

/// How many game steps without success make the explorer move on.
pub const LAST_SUCCESS_TIMEOUT_MULTIPLIER: u32 = 6;

/// Needs of a freshly created explorer, in resource order.
pub const INITIAL_NEEDS: [u64; 10] = [3, 3, 3, 3, 3, 3, 3, 3, 4, 10];

} // verus!
