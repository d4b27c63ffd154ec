//! Event commands (set 64): the peer's composite.

use vstd::prelude::*;

verus! {

pub const COMPOSITE: u8 = 100;

} // verus!
