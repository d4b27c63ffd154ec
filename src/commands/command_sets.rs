//! Command set ids.

use vstd::prelude::*;

verus! {

pub const VIRTUAL_MACHINE: u8 = 1;

pub const REFERENCE_TYPE: u8 = 2;

pub const CLASS_TYPE: u8 = 3;

pub const METHOD: u8 = 6;

pub const OBJECT_REFERENCE: u8 = 9;

pub const STRING_REFERENCE: u8 = 10;

pub const THREAD_REFERENCE: u8 = 11;

pub const THREAD_GROUP_REFERENCE: u8 = 12;

pub const ARRAY_REFERENCE: u8 = 13;

pub const EVENT_REQUEST: u8 = 15;

pub const STACK_FRAME: u8 = 16;

pub const EVENT: u8 = 64;

} // verus!
