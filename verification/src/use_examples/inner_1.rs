mod inner_2;

// `inner_2::x` is now imported into `inner_1`'s scope as `x`, and it is also
// exported because of the `pub`.
pub use inner_2::x;
