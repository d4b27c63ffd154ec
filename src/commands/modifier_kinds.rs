//! Modifier kinds of EventRequest.Set.

use vstd::prelude::*;

verus! {

pub const COUNT: u8 = 1;

pub const CONDITIONAL: u8 = 2;

pub const THREAD_ONLY: u8 = 3;

pub const CLASS_ONLY: u8 = 4;

pub const CLASS_MATCH: u8 = 5;

pub const CLASS_EXCLUDE: u8 = 6;

pub const LOCATION_ONLY: u8 = 7;

pub const EXCEPTION_ONLY: u8 = 8;

pub const FIELD_ONLY: u8 = 9;

pub const STEP: u8 = 10;

pub const INSTANCE_ONLY: u8 = 11;

} // verus!
