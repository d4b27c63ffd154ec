//! StringReference commands (set 10).

use vstd::prelude::*;

verus! {

pub const VALUE: u8 = 1;

} // verus!
