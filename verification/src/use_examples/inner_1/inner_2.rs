use vstd::prelude::*;

verus! {

pub fn x()
    no_unwind
{
}

} // verus!
