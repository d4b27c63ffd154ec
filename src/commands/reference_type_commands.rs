//! ReferenceType commands (set 2).

use vstd::prelude::*;

verus! {

pub const SIGNATURE: u8 = 1;

pub const CLASS_LOADER: u8 = 2;

pub const MODIFIERS: u8 = 3;

pub const FIELDS: u8 = 4;

pub const METHODS: u8 = 5;

pub const GET_VALUES: u8 = 6;

pub const SOURCE_FILE: u8 = 7;

pub const NESTED_TYPES: u8 = 8;

pub const STATUS: u8 = 9;

pub const INTERFACES: u8 = 10;

pub const CLASS_OBJECT: u8 = 11;

pub const SOURCE_DEBUG_EXTENSION: u8 = 12;

pub const SIGNATURE_WITH_GENERIC: u8 = 13;

pub const FIELDS_WITH_GENERIC: u8 = 14;

pub const METHODS_WITH_GENERIC: u8 = 15;

} // verus!
