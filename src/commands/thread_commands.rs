//! ThreadReference commands (set 11).

use vstd::prelude::*;

verus! {

pub const NAME: u8 = 1;

pub const SUSPEND: u8 = 2;

pub const RESUME: u8 = 3;

pub const STATUS: u8 = 4;

pub const THREAD_GROUP: u8 = 5;

pub const FRAMES: u8 = 6;

pub const FRAME_COUNT: u8 = 7;

pub const OWNED_MONITORS: u8 = 8;

pub const CURRENT_CONTENDED_MONITOR: u8 = 9;

pub const STOP: u8 = 10;

pub const INTERRUPT: u8 = 11;

pub const SUSPEND_COUNT: u8 = 12;

} // verus!
