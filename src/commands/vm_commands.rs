//! VirtualMachine commands (set 1).

use vstd::prelude::*;

verus! {

pub const VERSION: u8 = 1;

pub const CLASSES_BY_SIGNATURE: u8 = 2;

pub const ALL_CLASSES: u8 = 3;

pub const ALL_THREADS: u8 = 4;

pub const TOP_LEVEL_THREAD_GROUPS: u8 = 5;

pub const DISPOSE: u8 = 6;

pub const ID_SIZES: u8 = 7;

pub const SUSPEND: u8 = 8;

pub const RESUME: u8 = 9;

pub const EXIT: u8 = 10;

pub const CREATE_STRING: u8 = 11;

pub const CAPABILITIES: u8 = 12;

pub const CLASS_PATHS: u8 = 13;

pub const DISPOSE_OBJECTS: u8 = 14;

pub const HOLD_EVENTS: u8 = 15;

pub const RELEASE_EVENTS: u8 = 16;

} // verus!
