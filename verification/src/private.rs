use vstd::prelude::*;

verus! {

/// Seals the tag traits: a tag type can only be declared inside this crate,
/// so the set of operation kinds and of claims stays closed.
pub trait Seal {

}

} // verus!
