use vstd::prelude::*;

verus! {

pub fn g()
    no_unwind
{
}

pub fn i()
    no_unwind
{
}

} // verus!
