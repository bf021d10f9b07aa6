use vstd::prelude::*;

verus! {

/// `i` is the first place at which `keys` holds `key`.
pub open spec fn first_at(keys: Seq<int>, key: int, i: int) -> bool {
    &&& 0 <= i < keys.len()
    &&& keys[i] == key
    &&& forall|j: int| 0 <= j < i ==> keys[j] != key
}

/// `keys` holds `key` somewhere.
pub open spec fn has_key(keys: Seq<int>, key: int) -> bool {
    exists|i: int| 0 <= i < keys.len() && keys[i] == key
}

/// The first place at which `keys` holds `key`, where it holds it at all.
pub open spec fn slot_of(keys: Seq<int>, key: int) -> int {
    choose|i: int| first_at(keys, key, i)
}

/// The first place of a key is the only one that `first_at` accepts.
pub proof fn lemma_first_at(keys: Seq<int>, key: int, i: int)
    requires
        first_at(keys, key, i),
    ensures
        has_key(keys, key),
        slot_of(keys, key) == i,
{
    let c = slot_of(keys, key);
    assert(first_at(keys, key, c));
    if c < i {
        assert(keys[c] != key);
    }
    if i < c {
        assert(keys[i] != key);
    }
}

/// A key that `keys` holds has a first place, and `slot_of` names it.
pub proof fn lemma_slot_of(keys: Seq<int>, key: int)
    requires
        has_key(keys, key),
    ensures
        first_at(keys, key, slot_of(keys, key)),
{
    let i = choose|i: int| 0 <= i < keys.len() && keys[i] == key;
    lemma_has_first(keys, key, i);
}

proof fn lemma_has_first(keys: Seq<int>, key: int, i: int)
    requires
        0 <= i < keys.len(),
        keys[i] == key,
    ensures
        exists|j: int| first_at(keys, key, j),
    decreases i,
{
    if forall|j: int| 0 <= j < i ==> keys[j] != key {
        assert(first_at(keys, key, i));
    } else {
        let j = choose|j: int| 0 <= j < i && keys[j] == key;
        lemma_has_first(keys, key, j);
    }
}

} // verus!
