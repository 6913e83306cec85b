//! The element types: what the structures are built over.
pub mod cyclic;
pub mod dihedral;
pub mod numbers;
pub mod perm;
pub mod word;

pub use cyclic::CyclicNumber;
pub use dihedral::DihedralElement;
pub use numbers::{Integer, Natural};
pub use perm::Permutation;
pub use word::{Alphabet, Word};
