use vstd::prelude::*;

pub mod use_nested_2;
pub mod use_nested_3;

verus! {

pub fn j()
    no_unwind
{
}

} // verus!
