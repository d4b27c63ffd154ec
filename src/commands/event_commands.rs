//! EventRequest commands (set 15).

use vstd::prelude::*;

verus! {

pub const SET: u8 = 1;

pub const CLEAR: u8 = 2;

pub const CLEAR_ALL_BREAKPOINTS: u8 = 3;

} // verus!
