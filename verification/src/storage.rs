use crate::types::AssetId;
use vstd::prelude::*;

verus! {

/// The first place at which `list` holds `id`, or its length.
pub open spec fn first_place(list: Seq<u32>, id: u32) -> int
    decreases list.len(),
{
    if list.len() == 0 || list[0] == id {
        0
    } else {
        1 + first_place(list.skip(1), id)
    }
}

/// `list` without its first entry equal to `id`; the list itself where it
/// holds none.
pub open spec fn without_first(list: Seq<u32>, id: u32) -> Seq<u32> {
    if list.contains(id) {
        list.remove(first_place(list, id))
    } else {
        list
    }
}

proof fn lemma_first_place(list: Seq<u32>, id: u32, i: int)
    requires
        0 <= i < list.len(),
        list[i] == id,
        forall|j: int| 0 <= j < i ==> list[j] != id,
    ensures
        first_place(list, id) == i,
    decreases i,
{
    if i > 0 {
        let rest = list.skip(1);
        assert(rest[i - 1] == id);
        assert forall|j: int| 0 <= j < i - 1 implies rest[j] != id by {
            assert(rest[j] == list[j + 1]);
        }
        lemma_first_place(rest, id, i - 1);
    }
}

/// Adds a position to the end of a user's list.
pub fn add_user_position(positions: &mut Vec<u32>, position_id: u32)
    ensures
        final(positions)@ == old(positions)@.push(position_id),
{
    positions.push(position_id);
}

/// Takes a position out of a user's list: the first entry with that id
/// goes, the others keep their order; a list without it stays as it is.
pub fn remove_user_position(positions: &mut Vec<u32>, position_id: u32)
    ensures
        final(positions)@ == without_first(old(positions)@, position_id),
{
    let mut i: usize = 0;
    while i < positions.len()
        invariant
            i <= positions.len(),
            positions@ == old(positions)@,
            forall|j: int| 0 <= j < i ==> positions@[j] != position_id,
        decreases positions.len() - i,
    {
        if positions[i] == position_id {
            proof {
                lemma_first_place(positions@, position_id, i as int);
            }
            positions.remove(i);
            return;
        }
        i = i + 1;
    }
}

/// The id for the next position: one more than the last one given.
pub fn bump_position_id(counter: u32) -> (id: u32)
    requires
        counter < u32::MAX,
    ensures
        id == counter + 1,
{
    counter + 1
}

/// Adds a market to the end of the market list and returns its place.
pub fn push_market_list(market_list: &mut Vec<AssetId>, asset: AssetId) -> (index: u32)
    requires
        old(market_list)@.len() < u32::MAX,
    ensures
        final(market_list)@ == old(market_list)@.push(asset),
        index == old(market_list)@.len(),
{
    market_list.push(asset);
    (market_list.len() - 1) as u32
}

} // verus!
