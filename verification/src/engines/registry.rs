//! The map that keeps the metadata of the state: serial forms, each under the
//! name of its metadata.

use vstd::prelude::*;

verus! {

/// `hashbrown::HashMap`, as a type whose inside is not looked into.
#[verifier::external_type_specification]
#[verifier::external_body]
#[verifier::reject_recursive_types(K)]
#[verifier::reject_recursive_types(V)]
#[verifier::reject_recursive_types(S)]
pub struct ExHashMap<K, V, S>(hashbrown::HashMap<K, V, S>);

/// `hashbrown::hash_map::DefaultHashBuilder`, the hasher that a map has when
/// none is named, as a type whose inside is not looked into.
#[verifier::external_type_specification]
#[verifier::external_body]
pub struct ExDefaultHashBuilder(hashbrown::hash_map::DefaultHashBuilder);

/// The entries that a name-keyed map of serial forms holds.
pub uninterp spec fn metadata_entries(map: hashbrown::HashMap<&'static str, Vec<u8>>) -> Map<
    Seq<char>,
    Seq<u8>,
>;

/// `hashbrown::HashMap::default`: the map it makes holds no entry.
#[verifier::external_body]
pub(crate) fn metadata_map_new() -> (map: hashbrown::HashMap<&'static str, Vec<u8>>)
    ensures
        metadata_entries(map) == (Map::<Seq<char>, Seq<u8>>::empty()),
{
    hashbrown::HashMap::default()
}

/// `hashbrown::HashMap::insert`: afterwards `key` maps to `value` and every
/// other key to what it mapped to before; the value that `key` had, if any, is
/// handed back.
#[verifier::external_body]
pub(crate) fn metadata_map_insert(
    map: &mut hashbrown::HashMap<&'static str, Vec<u8>>,
    key: &'static str,
    value: Vec<u8>,
) -> (previous: Option<Vec<u8>>)
    ensures
        metadata_entries(*final(map)) == metadata_entries(*old(map)).insert(key@, value@),
        match previous {
            Some(p) => metadata_entries(*old(map)).contains_key(key@) && p@ == metadata_entries(
                *old(map),
            )[key@],
            None => !metadata_entries(*old(map)).contains_key(key@),
        },
{
    map.insert(key, value)
}

} // verus!
