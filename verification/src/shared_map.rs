use vstd::prelude::*;

verus! {

/// Declaration of dashmap's concurrent hash map, so that values of it can
/// stand in this library's types. The map is opaque here; the few operations
/// the library uses are wrapped where its contents are given a meaning.
#[verifier::external_type_specification]
#[verifier::external_body]
#[verifier::reject_recursive_types(K)]
#[verifier::reject_recursive_types(V)]
#[verifier::reject_recursive_types(S)]
pub struct ExDashMap<K, V, S>(dashmap::DashMap<K, V, S>);

} // verus!
