//! The platform families, and the name that each one goes by.

use vstd::prelude::*;

verus! {

/// A platform family that a build can target.
#[derive(Clone, Copy, Debug, PartialEq, Eq, Structural)]
pub enum Family {
    Unix,
    Windows,
}

/// The name of a family, as a sequence of characters.
pub open spec fn family_name(family: Family) -> Seq<char> {
    match family {
        Family::Unix => crate::unix::FAMILY@,
        Family::Windows => crate::windows::FAMILY@,
    }
}

/// Each family goes by one of two names, which are spelled here.
pub proof fn lemma_family_name_is_known(family: Family)
    ensures
        family_name(family) == "unix"@ || family_name(family) == "windows"@,
        family_name(family) == "unix"@ <==> family == Family::Unix,
        family_name(family) == "windows"@ <==> family == Family::Windows,
{
    reveal_strlit("unix");
    reveal_strlit("windows");
    assert(family_name(Family::Unix).len() == 4);
    assert(family_name(Family::Windows).len() == 7);
}

/// The two families go by different names, so a name tells its family.
pub proof fn lemma_family_names_differ(one: Family, other: Family)
    requires
        family_name(one) == family_name(other),
    ensures
        one == other,
{
    lemma_family_name_is_known(one);
    lemma_family_name_is_known(other);
}

} // verus!
