//! Event kinds, as EventRequest.Set takes them and events carry them.

use vstd::prelude::*;

verus! {

pub const SINGLE_STEP: u8 = 1;

pub const BREAKPOINT: u8 = 2;

pub const FRAME_POP: u8 = 3;

pub const EXCEPTION: u8 = 4;

pub const USER_DEFINED: u8 = 5;

pub const THREAD_START: u8 = 6;

pub const THREAD_DEATH: u8 = 7;

pub const CLASS_PREPARE: u8 = 8;

pub const CLASS_UNLOAD: u8 = 9;

pub const CLASS_LOAD: u8 = 10;

pub const FIELD_ACCESS: u8 = 20;

pub const FIELD_MODIFICATION: u8 = 21;

pub const EXCEPTION_CATCH: u8 = 30;

pub const METHOD_ENTRY: u8 = 40;

pub const METHOD_EXIT: u8 = 41;

pub const METHOD_EXIT_WITH_RETURN_VALUE: u8 = 42;

pub const MONITOR_CONTENDED_ENTER: u8 = 43;

pub const MONITOR_CONTENDED_ENTERED: u8 = 44;

pub const MONITOR_WAIT: u8 = 45;

pub const MONITOR_WAITED: u8 = 46;

pub const VM_START: u8 = 90;

pub const VM_DEATH: u8 = 99;

} // verus!
