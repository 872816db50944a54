//! Who can see what.
//!
//! Everything is private by default, modules too. This module keeps its
//! children in a directory of its own name, and is itself the `mod.rs` there.

use vstd::prelude::*;

// `private_inner` is visible in `name_resolution` and its child modules, but
// not by `name_resolution`'s parents.
mod private_inner;

// The crate root, and users of the crate, see this module and everything
// exported by it.
pub mod public_inner;

verus! {

pub fn test_private_inner()
    no_unwind
{
    // A child module's exported item is reached as `child_module::item`:
    private_inner::b();
    // `private_inner::a()` would not compile here, because `a` is not
    // exported with `pub`.
}

} // verus!
