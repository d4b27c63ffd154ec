//! StackFrame commands (set 16).

use vstd::prelude::*;

verus! {

pub const GET_VALUES: u8 = 1;

pub const SET_VALUES: u8 = 2;

pub const THIS_OBJECT: u8 = 3;

pub const POP_FRAMES: u8 = 4;

} // verus!
