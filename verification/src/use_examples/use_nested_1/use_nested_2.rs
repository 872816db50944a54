use vstd::prelude::*;

verus! {

pub fn g()
    no_unwind
{
}

pub fn h()
    no_unwind
{
}

} // verus!
