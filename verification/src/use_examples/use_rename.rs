use vstd::prelude::*;

verus! {

pub fn a()
    no_unwind
{
}

} // verus!
