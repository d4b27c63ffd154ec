//! Method commands (set 6).

use vstd::prelude::*;

verus! {

pub const LINE_TABLE: u8 = 1;

pub const VARIABLE_TABLE: u8 = 2;

pub const BYTECODES: u8 = 3;

pub const IS_OBSOLETE: u8 = 4;

pub const VARIABLE_TABLE_WITH_GENERIC: u8 = 5;

} // verus!
