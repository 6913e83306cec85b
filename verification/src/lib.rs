//! Algebraic structures as types: monoids, groups, rings and fields over
//! element types whose operations are specified on mathematical models and
//! whose laws are proved.
pub mod actions;
pub mod fields;
pub mod groups;
pub mod monoid;
pub mod number_theory;
pub mod ops;
pub mod primitives;
pub mod rings;
pub mod utils;
pub(crate) mod private;
