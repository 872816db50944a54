//! Imports with `use`.
//!
//! Items visible in a scope can be imported into that scope with the `use`
//! keyword. This module keeps its children in a directory of its own name,
//! beside this file.

use vstd::prelude::*;

mod use_inner;

// `use_inner::a` is now in scope as `a` in `use_examples`.
use use_inner::a;

// Any item that is visible here can be imported, not only the first of a
// module.
use use_inner::b;

mod use_wildcard;

// A wildcard imports everything that a module exports: the line
// `use vstd::prelude::*;` above is one. With several wildcards in a scope it
// gets difficult to know where a particular item comes from, so the crate's
// own items are imported by name.
use use_wildcard::{favourite, my, not};

// `use` supports renaming, useful to avoid name clashes:

mod use_rename;

// `use use_rename::a;` would be a compile error, because `use_inner::a` is
// already imported above. This imports `use_rename::a` as `a_renamed`.
use use_rename::a as a_renamed;

// `use` supports a nested syntax which avoids repetition in imports:

mod use_nested_1;

use use_nested_1::{
    j,
    use_nested_2::{g, h},
    use_nested_3::{g as use_nested_3_g, i},
};

// Items visible in a scope can be exported by that scope with the `pub use`
// keywords: see `inner_1`.

mod inner_1;

verus! {

pub fn test_use()
    no_unwind
{
    // `use_inner::a` can be called explicitly.
    use_inner::a();

    // But because it was imported with `use` it can also be called simply
    // as `a`.
    a();

    b();
}

pub fn test_use_wildcard()
    no_unwind
{
    not();
    my();
    favourite();
}

pub fn test_use_nested()
    no_unwind
{
    g();
    use_nested_3_g();
    h();
    i();
    j();
}

pub fn test_pub_use()
    no_unwind
{
    // `inner_1::inner_2::x()` does not compile, because `inner_2` is not
    // exported by `inner_1`.
    //
    // This works fine and refers to the same function, because `inner_1`
    // exported `inner_2::x` with `pub use`.
    inner_1::x();
}

} // verus!
