//! A small child of the crate root, short enough to be written in line with
//! its parent. It has a scope of its own all the same: items of other modules
//! are reached from the crate root, as `crate::item`, or relative to this
//! module, as `super::item`.

use vstd::prelude::*;

verus! {

// This has to be declared `pub` for the items of the crate root, and for
// users of the crate, to see it.
pub fn inline_fn()
    no_unwind
{
    super::f();
    crate::f();

    inline_private();
}

// Only `inline` and its child modules can see `inline_private`.
fn inline_private()
    no_unwind
{
}

} // verus!
