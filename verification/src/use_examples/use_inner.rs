use vstd::prelude::*;

verus! {

pub fn a()
    no_unwind
{
}

pub fn b()
    no_unwind
{
}

} // verus!
