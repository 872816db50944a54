//! What the tour knows of Windows.

use vstd::prelude::*;

verus! {

pub const FAMILY: &'static str = "windows";

} // verus!
