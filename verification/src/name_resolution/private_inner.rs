use vstd::prelude::*;

verus! {

// `a` is visible to `private_inner` and its child modules, but nowhere else.
fn a()
    no_unwind
{
}

// The `pub` keyword makes an item exported by its parent module, so `b` is
// visible to any module that can see `private_inner`. The crate root cannot
// see `private_inner`, so it still cannot see `b`.
pub fn b()
    no_unwind
{
}

} // verus!
