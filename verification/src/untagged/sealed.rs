use vstd::prelude::*;

verus! {

/// Stands in the traits of stored values, which the library alone
/// implements: no code outside the library can name this type.
pub struct Sealed;

} // verus!
