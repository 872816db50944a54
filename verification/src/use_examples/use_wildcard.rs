use vstd::prelude::*;

verus! {

pub fn not()
    no_unwind
{
}

pub fn my()
    no_unwind
{
}

pub fn favourite()
    no_unwind
{
}

} // verus!
