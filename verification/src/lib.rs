//! A tour of modules, visibility and imports, in a crate that Verus verifies.
//!
//! The modules form a tree from the root of the crate (this file) down to
//! each module. Every child module is declared with the `mod` keyword: a file
//! that merely lies in the source directory is no part of the crate.

// Mute the warnings about items that the tour declares and never uses.
#![allow(dead_code, unused_imports)]

use vstd::prelude::*;
use platform::{family_name, Family};

// This introduces the module `inline` into the children of the crate root,
// with the definition in `./inline.rs`.
pub mod inline;

// A module with child modules of its own can be laid out in two styles.
//
// In the first, the module and its children share a directory:
// `name_resolution/mod.rs` declares the children that lie beside it.
pub mod name_resolution;

// In the second, the module is a file beside the directory of its children:
// `use_examples.rs` declares the children that lie in `use_examples/`.
pub mod use_examples;

// Two files for one module name, `./foo.rs` and `./foo/mod.rs`, are a
// compilation error.

// Two modules can offer the same item, here a constant `FAMILY`, so that the
// code using them need not care which of the two it was handed.
pub mod unix;
pub mod windows;

pub mod greeting;
pub mod platform;

verus! {

// A private item of the crate root. Child modules can still reach it: as
// `super::f` from a direct child, as `crate::f` from anywhere in the crate.
fn f()
    no_unwind
{
}

/// The name of a platform family, taken from the module that knows it.
pub fn use_platform(family: Family) -> (name: &'static str)
    ensures
        name@ == family_name(family),
    no_unwind
{
    match family {
        Family::Unix => unix::FAMILY,
        Family::Windows => windows::FAMILY,
    }
}

} // verus!
