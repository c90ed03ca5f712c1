use vstd::prelude::*;

verus! {

/// The name of the GraphQL meta field that reports the concrete type of a
/// runtime value. It is the discriminator of every interface and union sum.
pub const TYPENAME_FIELD: &'static str = "__typename";

} // verus!
