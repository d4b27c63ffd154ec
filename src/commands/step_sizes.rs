//! Step sizes.

use vstd::prelude::*;

verus! {

pub const MIN: i32 = 0;

pub const LINE: i32 = 1;

} // verus!
