//! ObjectReference commands (set 9).

use vstd::prelude::*;

verus! {

pub const REFERENCE_TYPE: u8 = 1;

pub const GET_VALUES: u8 = 2;

pub const SET_VALUES: u8 = 3;

pub const MONITOR_INFO: u8 = 5;

pub const INVOKE_METHOD: u8 = 6;

pub const DISABLE_COLLECTION: u8 = 7;

pub const ENABLE_COLLECTION: u8 = 8;

pub const IS_COLLECTED: u8 = 9;

} // verus!
