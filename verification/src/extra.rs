//! Open-ended extra metadata, carried through projection as a tera JSON map.
//!
//! The projection layer never looks inside this map; it only hands a copy of
//! it to the produced view, so the map is declared opaquely.

use vstd::prelude::*;

verus! {

#[verifier::external_type_specification]
#[verifier::external_body]
#[verifier::reject_recursive_types(K)]
#[verifier::reject_recursive_types(V)]
pub struct ExtraMap<K, V>(tera::Map<K, V>);

#[verifier::external_type_specification]
#[verifier::external_body]
pub struct ExtraValue(tera::Value);

/// Relies on serde_json's `Map::clone` (the type tera re-exports as
/// `tera::Map`): it clones the underlying key-value map, reproducing the
/// same entries, so the copy equals the original.
#[verifier::external_body]
pub fn clone_extra(m: &tera::Map<String, tera::Value>) -> (r: tera::Map<
    String,
    tera::Value,
>)
    ensures
        r == *m,
{
    m.clone()
}

} // verus!
