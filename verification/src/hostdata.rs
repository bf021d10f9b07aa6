use soroban_sdk::Env;
use vstd::prelude::*;

verus! {

/// The host's vector, which holds the ids of what has changed and the
/// result codes of a batch.
#[verifier::external_type_specification]
#[verifier::external_body]
#[verifier::reject_recursive_types(T)]
pub struct ExHostVec<T>(soroban_sdk::Vec<T>);

/// A host vector of ids or result codes.
pub type IdList = soroban_sdk::Vec<u32>;

/// A host map from an id to the place under which a cache holds the item
/// with that id.
pub type SlotMap = soroban_sdk::Map<u32, u32>;

/// The items of a host vector, in order.
pub uninterp spec fn items_of(v: soroban_sdk::Vec<u32>) -> Seq<u32>;

/// The entries of a host map from ids to places.
pub uninterp spec fn slots_of(m: soroban_sdk::Map<u32, u32>) -> Map<u32, u32>;

/// The sequence without items.
pub open spec fn no_items() -> Seq<u32> {
    Seq::empty()
}

/// The map without entries.
pub open spec fn no_slots() -> Map<u32, u32> {
    Map::empty()
}

/// Calls `Vec::new`, which gives a vector without items.
#[verifier::external_body]
pub(crate) fn host_vec_new(e: &Env) -> (fresh: IdList)
    ensures
        items_of(fresh) == no_items(),
{
    soroban_sdk::Vec::new(e)
}

/// Calls `Vec::push_back`, which puts the item in the last place and
/// leaves the others where they are.
#[verifier::external_body]
pub(crate) fn host_vec_push(v: &mut IdList, item: u32)
    ensures
        items_of(*final(v)) == items_of(*old(v)).push(item),
{
    v.push_back(item)
}

/// Calls `Vec::contains`, which tells whether the vector holds the item.
#[verifier::external_body]
pub(crate) fn host_vec_contains(v: &IdList, item: u32) -> (r: bool)
    ensures
        r == items_of(*v).contains(item),
{
    v.contains(item)
}

/// Calls `Vec::iter`, which hands the items out in order, and copies them
/// into a vector.
#[verifier::external_body]
pub(crate) fn host_vec_items(v: &IdList) -> (items: Vec<u32>)
    ensures
        items@ == items_of(*v),
{
    v.iter().collect()
}

/// Calls `Map::new`, which gives a map without entries.
#[verifier::external_body]
pub(crate) fn slot_map_new(e: &Env) -> (fresh: SlotMap)
    ensures
        slots_of(fresh) == no_slots(),
{
    soroban_sdk::Map::new(e)
}

/// Calls `Map::get`, which gives the value stored under `key`, or `None`
/// where the map holds no such key.
#[verifier::external_body]
pub(crate) fn slot_map_get(m: &SlotMap, key: u32) -> (r: Option<u32>)
    ensures
        r == (if slots_of(*m).contains_key(key) {
            Some(slots_of(*m)[key])
        } else {
            None
        }),
{
    m.get(key)
}

/// Calls `Map::set`, which stores `value` under `key` and replaces what was
/// stored there before; the other entries stay.
#[verifier::external_body]
pub(crate) fn slot_map_set(m: &mut SlotMap, key: u32, value: u32)
    ensures
        slots_of(*final(m)) == slots_of(*old(m)).insert(key, value),
{
    m.set(key, value)
}

} // verus!
