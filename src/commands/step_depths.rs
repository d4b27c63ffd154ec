//! Step depths.

use vstd::prelude::*;

verus! {

pub const INTO: i32 = 0;

pub const OVER: i32 = 1;

pub const OUT: i32 = 2;

} // verus!
