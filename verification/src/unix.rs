//! What the tour knows of Unix-like platforms (Linux, macOS and the like).

use vstd::prelude::*;

verus! {

pub const FAMILY: &'static str = "unix";

} // verus!
