use crate::constants::{MAX_PRICE_AGE, SCALAR_7};
use crate::execute::{calculate_caller_fee, caller_share};
use crate::fixed_point::mul_floor_ok;
use crate::hostdata::{
    host_vec_contains, host_vec_items, host_vec_new, host_vec_push, items_of, slot_map_get,
    slot_map_new, slot_map_set, slots_of, IdList, SlotMap,
};
use crate::lookup::{first_at, has_key, lemma_first_at, lemma_slot_of, slot_of};
use crate::errors::TradingError;
use crate::market::Market;
use crate::types::{AccountId, AssetId, Position, TradingConfig};
use soroban_sdk::Env;
use vstd::prelude::*;

verus! {

/// One reading of the price feed.
#[derive(Clone, Copy, Debug, PartialEq, Eq, Structural)]
pub struct PriceData {
    pub asset: AssetId,
    pub price: i128,
    pub timestamp: u64,
}

/// Whether a price stamped `timestamp` is too old at `now`.
pub open spec fn price_stale(timestamp: u64, now: u64) -> bool {
    now - timestamp > MAX_PRICE_AGE
}

/// What the engine makes of a reading: no reading is `PriceNotFound`, one
/// older than the limit is `PriceStale`, any other gives its price.
pub open spec fn checked_price(reading: Option<PriceData>, now: u64) -> Result<
    i128,
    TradingError,
> {
    match reading {
        None => Err(TradingError::PriceNotFound),
        Some(data) => if price_stale(data.timestamp, now) {
            Err(TradingError::PriceStale)
        } else {
            Ok(data.price)
        },
    }
}

/// Accepts or rejects a reading of the price feed at time `now`.
pub fn check_price(reading: Option<PriceData>, now: u64) -> (r: Result<i128, TradingError>)
    ensures
        r == checked_price(reading, now),
{
    match reading {
        None => Err(TradingError::PriceNotFound),
        Some(data) => {
            if data.timestamp < now && now - data.timestamp > MAX_PRICE_AGE {
                Err(TradingError::PriceStale)
            } else {
                Ok(data.price)
            }
        },
    }
}

/// The ids of cached positions, in order.
pub open spec fn position_keys(positions: Seq<Position>) -> Seq<int> {
    Seq::new(positions.len(), |i: int| positions[i].id as int)
}

/// The assets of cached markets, in order.
pub open spec fn market_keys(markets: Seq<Market>) -> Seq<int> {
    Seq::new(markets.len(), |i: int| markets[i].asset as int)
}

/// The assets of cached prices, in order.
pub open spec fn price_keys(prices: Seq<PriceData>) -> Seq<int> {
    Seq::new(prices.len(), |i: int| prices[i].asset as int)
}

/// The cached position with the given id.
pub open spec fn position_lookup(positions: Seq<Position>, id: u32) -> Option<Position> {
    if has_key(position_keys(positions), id as int) {
        Some(positions[slot_of(position_keys(positions), id as int)])
    } else {
        None
    }
}

/// The cached market of the given asset.
pub open spec fn market_lookup(markets: Seq<Market>, asset: AssetId) -> Option<Market> {
    if has_key(market_keys(markets), asset as int) {
        Some(markets[slot_of(market_keys(markets), asset as int)])
    } else {
        None
    }
}

/// The cached reading for the given asset.
pub open spec fn reading_lookup(prices: Seq<PriceData>, asset: AssetId) -> Option<PriceData> {
    if has_key(price_keys(prices), asset as int) {
        Some(prices[slot_of(price_keys(prices), asset as int)])
    } else {
        None
    }
}

/// The cache with `position` in the place of the entry that has its id, or
/// at the end where there is none.
pub open spec fn positions_with(positions: Seq<Position>, position: Position) -> Seq<Position> {
    if has_key(position_keys(positions), position.id as int) {
        positions.update(slot_of(position_keys(positions), position.id as int), position)
    } else {
        positions.push(position)
    }
}

/// The cache with `market` in the place of the entry for its asset, or at
/// the end where there is none.
pub open spec fn markets_with(markets: Seq<Market>, market: Market) -> Seq<Market> {
    if has_key(market_keys(markets), market.asset as int) {
        markets.update(slot_of(market_keys(markets), market.asset as int), market)
    } else {
        markets.push(market)
    }
}

/// The list with `id` added at the end unless it is in it.
pub open spec fn marked(list: Seq<u32>, id: u32) -> Seq<u32> {
    if list.contains(id) {
        list
    } else {
        list.push(id)
    }
}

/// The index agrees with the cache: it knows exactly the keys that the
/// cache holds, each with the first place at which the cache holds it.
pub open spec fn indexed(slots: Map<u32, u32>, keys: Seq<int>) -> bool {
    &&& keys.len() <= u32::MAX
    &&& forall|k: u32| #[trigger] slots.contains_key(k) <==> has_key(keys, k as int)
    &&& forall|k: u32|
        slots.contains_key(k) ==> (#[trigger] slots[k]) as int == slot_of(keys, k as int)
}

/// There is room for `key`: the cache holds it already or can take one
/// entry more.
pub open spec fn room_for(keys: Seq<int>, key: int) -> bool {
    has_key(keys, key) || keys.len() < u32::MAX
}

proof fn lemma_indexed_push(slots: Map<u32, u32>, keys: Seq<int>, key: u32)
    requires
        indexed(slots, keys),
        !has_key(keys, key as int),
        keys.len() < u32::MAX,
    ensures
        indexed(slots.insert(key, keys.len() as u32), keys.push(key as int)),
{
    let grown = keys.push(key as int);
    let index = slots.insert(key, keys.len() as u32);
    let last = keys.len() as int;
    assert(grown[last] == key as int);
    assert forall|j: int| 0 <= j < last implies grown[j] != key as int by {
        assert(grown[j] == keys[j]);
    }
    assert forall|k: u32| #[trigger] index.contains_key(k) <==> has_key(grown, k as int) by {
        if k != key {
            if has_key(keys, k as int) {
                let w = choose|i: int| 0 <= i < keys.len() && keys[i] == k as int;
                assert(grown[w] == k as int);
            }
            if has_key(grown, k as int) {
                let w = choose|i: int| 0 <= i < grown.len() && grown[i] == k as int;
                assert(w != last);
                assert(keys[w] == k as int);
            }
        }
    }
    assert forall|k: u32| index.contains_key(k) implies (#[trigger] index[k]) as int == slot_of(
        grown,
        k as int,
    ) by {
        if k == key {
            assert(first_at(grown, key as int, last));
            lemma_first_at(grown, key as int, last);
        } else {
            assert(slots.contains_key(k));
            lemma_slot_of(keys, k as int);
            let at = slot_of(keys, k as int);
            assert(slots[k] as int == at);
            assert(grown[at] == keys[at]);
            assert forall|j: int| 0 <= j < at implies grown[j] != k as int by {
                assert(grown[j] == keys[j]);
            }
            assert(first_at(grown, k as int, at));
            lemma_first_at(grown, k as int, at);
        }
    }
}

/// Looks a key up in an index.
fn lookup(slots: &SlotMap, key: u32, keys: Ghost<Seq<int>>) -> (r: Option<usize>)
    requires
        indexed(slots_of(*slots), keys@),
    ensures
        match r {
            Some(i) => first_at(keys@, key as int, i as int),
            None => !has_key(keys@, key as int),
        },
{
    match slot_map_get(slots, key) {
        Some(i) => {
            proof {
                lemma_slot_of(keys@, key as int);
            }
            Some(i as usize)
        },
        None => None,
    }
}

/// Notes in an index that a new key stands at the end of its cache.
fn note_slot(slots: &mut SlotMap, key: u32, len: usize, keys: Ghost<Seq<int>>)
    requires
        indexed(slots_of(*old(slots)), keys@),
        !has_key(keys@, key as int),
        keys@.len() == len,
        len < u32::MAX,
    ensures
        indexed(slots_of(*final(slots)), keys@.push(key as int)),
{
    slot_map_set(slots, key, len as u32);
    proof {
        lemma_indexed_push(slots_of(*old(slots)), keys@, key);
    }
}

fn mark(list: &mut IdList, id: u32)
    ensures
        items_of(*final(list)) == marked(items_of(*old(list)), id),
{
    if !host_vec_contains(list, id) {
        host_vec_push(list, id);
    }
}

/// What one entry point works on: the settings, the accounts involved, the
/// clock, and the markets, positions and prices that it has loaded. Each
/// cache comes with an index in a host map, from the id to the place of
/// the entry. Changes build up here and are written back once, at the end.
pub struct Trading {
    pub config: TradingConfig,
    pub vault: AccountId,
    pub token: AccountId,
    pub caller: AccountId,
    /// The ledger time of this invocation.
    pub now: u64,
    pub markets: Vec<Market>,
    /// Where `markets` holds the market of an asset.
    pub market_slots: SlotMap,
    pub positions: Vec<Position>,
    /// Where `positions` holds the position with an id.
    pub position_slots: SlotMap,
    /// Readings of the price feed, one per asset.
    pub prices: Vec<PriceData>,
    /// Where `prices` holds the reading for an asset.
    pub price_slots: SlotMap,
    /// Ids of the cached positions that have changed.
    pub positions_to_update: IdList,
    /// Assets of the cached markets that have changed.
    pub markets_to_update: IdList,
}

/// The settings, accounts and clock of `b` are those of `a`.
pub open spec fn same_setting(a: Trading, b: Trading) -> bool {
    &&& a.config == b.config
    &&& a.vault == b.vault
    &&& a.token == b.token
    &&& a.caller == b.caller
    &&& a.now == b.now
}

/// The cached markets of `b` are those of `a`.
pub open spec fn same_markets(a: Trading, b: Trading) -> bool {
    a.markets == b.markets && a.market_slots == b.market_slots
}

/// The cached positions of `b` are those of `a`.
pub open spec fn same_positions(a: Trading, b: Trading) -> bool {
    a.positions == b.positions && a.position_slots == b.position_slots
}

/// The cached prices of `b` are those of `a`.
pub open spec fn same_prices(a: Trading, b: Trading) -> bool {
    a.prices == b.prices && a.price_slots == b.price_slots
}

impl Trading {
    /// The three indexes agree with their caches.
    pub open spec fn wf(self) -> bool {
        &&& indexed(slots_of(self.market_slots), market_keys(self.markets@))
        &&& indexed(slots_of(self.position_slots), position_keys(self.positions@))
        &&& indexed(slots_of(self.price_slots), price_keys(self.prices@))
    }

    /// The ids of the cached positions that have changed, in the order in
    /// which they first changed.
    pub open spec fn changed_positions_view(self) -> Seq<u32> {
        items_of(self.positions_to_update)
    }

    /// The assets of the cached markets that have changed, in the order in
    /// which they first changed.
    pub open spec fn changed_markets_view(self) -> Seq<u32> {
        items_of(self.markets_to_update)
    }

    /// A context without cached markets, positions or prices.
    pub fn load(
        e: &Env,
        config: TradingConfig,
        vault: AccountId,
        token: AccountId,
        caller: AccountId,
        now: u64,
    ) -> (r: Trading)
        ensures
            r.wf(),
            r.config == config,
            r.vault == vault,
            r.token == token,
            r.caller == caller,
            r.now == now,
            r.markets@.len() == 0,
            r.positions@.len() == 0,
            r.prices@.len() == 0,
            r.changed_positions_view().len() == 0,
            r.changed_markets_view().len() == 0,
    {
        let r = Trading {
            config,
            vault,
            token,
            caller,
            now,
            markets: Vec::new(),
            market_slots: slot_map_new(e),
            positions: Vec::new(),
            position_slots: slot_map_new(e),
            prices: Vec::new(),
            price_slots: slot_map_new(e),
            positions_to_update: host_vec_new(e),
            markets_to_update: host_vec_new(e),
        };
        proof {
            assert forall|k: u32| !has_key(market_keys(r.markets@), k as int) by {}
            assert forall|k: u32| !has_key(position_keys(r.positions@), k as int) by {}
            assert forall|k: u32| !has_key(price_keys(r.prices@), k as int) by {}
        }
        r
    }

    /// The place of the cached position with the given id.
    pub fn find_position(&self, id: u32) -> (r: Option<usize>)
        requires
            self.wf(),
        ensures
            match r {
                Some(i) => first_at(position_keys(self.positions@), id as int, i as int),
                None => !has_key(position_keys(self.positions@), id as int),
            },
    {
        lookup(&self.position_slots, id, Ghost(position_keys(self.positions@)))
    }

    /// The place of the cached market of the given asset.
    pub fn find_market(&self, asset: AssetId) -> (r: Option<usize>)
        requires
            self.wf(),
        ensures
            match r {
                Some(i) => first_at(market_keys(self.markets@), asset as int, i as int),
                None => !has_key(market_keys(self.markets@), asset as int),
            },
    {
        lookup(&self.market_slots, asset, Ghost(market_keys(self.markets@)))
    }

    /// The cached reading for the given asset.
    pub fn find_reading(&self, asset: AssetId) -> (r: Option<PriceData>)
        requires
            self.wf(),
        ensures
            r == reading_lookup(self.prices@, asset),
    {
        match lookup(&self.price_slots, asset, Ghost(price_keys(self.prices@))) {
            Some(i) => {
                proof {
                    lemma_first_at(price_keys(self.prices@), asset as int, i as int);
                }
                Some(self.prices[i])
            },
            None => None,
        }
    }

    /// The cached position with the given id, or `PositionNotFound`.
    pub fn load_position(&self, position_id: u32) -> (r: Result<Position, TradingError>)
        requires
            self.wf(),
        ensures
            r == (match position_lookup(self.positions@, position_id) {
                Some(p) => Ok::<Position, TradingError>(p),
                None => Err(TradingError::PositionNotFound),
            }),
    {
        match self.find_position(position_id) {
            Some(i) => {
                proof {
                    lemma_first_at(position_keys(self.positions@), position_id as int, i as int);
                }
                Ok(self.positions[i])
            },
            None => Err(TradingError::PositionNotFound),
        }
    }

    /// The cached market of `asset` with its interest brought up to the
    /// time of this invocation, or `MarketNotFound`.
    pub fn load_market(&self, e: &Env, asset: AssetId) -> (r: Result<Market, TradingError>)
        requires
            self.wf(),
            match market_lookup(self.markets@, asset) {
                Some(m) => m.refresh_ok(self.now),
                None => true,
            },
        ensures
            r == (match market_lookup(self.markets@, asset) {
                Some(m) => Ok::<Market, TradingError>(m.refreshed(self.now)),
                None => Err(TradingError::MarketNotFound),
            }),
    {
        match self.find_market(asset) {
            Some(i) => {
                proof {
                    lemma_first_at(market_keys(self.markets@), asset as int, i as int);
                }
                let mut market = self.markets[i];
                market.update_borrowing_index(e, self.now);
                Ok(market)
            },
            None => Err(TradingError::MarketNotFound),
        }
    }

    /// The price of `asset` for this invocation: that of the cached
    /// reading, unless there is none or it is stale.
    pub fn load_price(&self, asset: AssetId) -> (r: Result<i128, TradingError>)
        requires
            self.wf(),
        ensures
            r == checked_price(reading_lookup(self.prices@, asset), self.now),
    {
        check_price(self.find_reading(asset), self.now)
    }

    /// Puts a market that was read from storage into the cache, in the
    /// place of the entry for its asset if there is one, without noting it
    /// as changed.
    pub fn preload_market(&mut self, market: &Market)
        requires
            old(self).wf(),
            room_for(market_keys(old(self).markets@), market.asset as int),
        ensures
            final(self).wf(),
            final(self).markets@ == markets_with(old(self).markets@, *market),
            final(self).markets_to_update == old(self).markets_to_update,
            final(self).positions_to_update == old(self).positions_to_update,
            same_setting(*old(self), *final(self)),
            same_positions(*old(self), *final(self)),
            same_prices(*old(self), *final(self)),
    {
        let ghost keys = market_keys(self.markets@);
        match self.find_market(market.asset) {
            Some(i) => {
                proof {
                    lemma_first_at(keys, market.asset as int, i as int);
                }
                self.markets[i] = *market;
                proof {
                    assert(market_keys(self.markets@) =~= keys);
                }
            },
            None => {
                let len = self.markets.len();
                note_slot(&mut self.market_slots, market.asset, len, Ghost(keys));
                self.markets.push(*market);
                proof {
                    assert(market_keys(self.markets@) =~= keys.push(market.asset as int));
                }
            },
        }
    }

    /// Puts a position that was read from storage into the cache, in the
    /// place of the entry with its id if there is one, without noting it as
    /// changed.
    pub fn preload_position(&mut self, position: &Position)
        requires
            old(self).wf(),
            room_for(position_keys(old(self).positions@), position.id as int),
        ensures
            final(self).wf(),
            final(self).positions@ == positions_with(old(self).positions@, *position),
            final(self).markets_to_update == old(self).markets_to_update,
            final(self).positions_to_update == old(self).positions_to_update,
            same_setting(*old(self), *final(self)),
            same_markets(*old(self), *final(self)),
            same_prices(*old(self), *final(self)),
    {
        let ghost keys = position_keys(self.positions@);
        match self.find_position(position.id) {
            Some(i) => {
                proof {
                    lemma_first_at(keys, position.id as int, i as int);
                }
                self.positions[i] = *position;
                proof {
                    assert(position_keys(self.positions@) =~= keys);
                }
            },
            None => {
                let len = self.positions.len();
                note_slot(&mut self.position_slots, position.id, len, Ghost(keys));
                self.positions.push(*position);
                proof {
                    assert(position_keys(self.positions@) =~= keys.push(position.id as int));
                }
            },
        }
    }

    /// The readings with `reading` in the place of the entry for its asset,
    /// or at the end where there is none.
    pub open spec fn prices_with(prices: Seq<PriceData>, reading: PriceData) -> Seq<PriceData> {
        if has_key(price_keys(prices), reading.asset as int) {
            prices.update(slot_of(price_keys(prices), reading.asset as int), reading)
        } else {
            prices.push(reading)
        }
    }

    /// Puts a reading of the price feed into the cache, in the place of the
    /// entry for its asset if there is one.
    pub fn preload_price(&mut self, reading: &PriceData)
        requires
            old(self).wf(),
            room_for(price_keys(old(self).prices@), reading.asset as int),
        ensures
            final(self).wf(),
            final(self).prices@ == Self::prices_with(old(self).prices@, *reading),
            final(self).markets_to_update == old(self).markets_to_update,
            final(self).positions_to_update == old(self).positions_to_update,
            same_setting(*old(self), *final(self)),
            same_markets(*old(self), *final(self)),
            same_positions(*old(self), *final(self)),
    {
        let ghost keys = price_keys(self.prices@);
        match lookup(&self.price_slots, reading.asset, Ghost(keys)) {
            Some(i) => {
                proof {
                    lemma_first_at(keys, reading.asset as int, i as int);
                }
                self.prices[i] = *reading;
                proof {
                    assert(price_keys(self.prices@) =~= keys);
                }
            },
            None => {
                let len = self.prices.len();
                note_slot(&mut self.price_slots, reading.asset, len, Ghost(keys));
                self.prices.push(*reading);
                proof {
                    assert(price_keys(self.prices@) =~= keys.push(reading.asset as int));
                }
            },
        }
    }

    /// Puts `market` into the cache, in the place of the entry for its
    /// asset if there is one, and notes it as changed.
    pub fn cache_market(&mut self, market: &Market)
        requires
            old(self).wf(),
            room_for(market_keys(old(self).markets@), market.asset as int),
        ensures
            final(self).wf(),
            final(self).markets@ == markets_with(old(self).markets@, *market),
            final(self).changed_markets_view() == marked(
                old(self).changed_markets_view(),
                market.asset,
            ),
            final(self).positions_to_update == old(self).positions_to_update,
            same_setting(*old(self), *final(self)),
            same_positions(*old(self), *final(self)),
            same_prices(*old(self), *final(self)),
    {
        self.preload_market(market);
        mark(&mut self.markets_to_update, market.asset);
    }

    /// Puts `position` into the cache, in the place of the entry with its
    /// id if there is one, and notes it as changed.
    pub fn cache_position(&mut self, position: &Position)
        requires
            old(self).wf(),
            room_for(position_keys(old(self).positions@), position.id as int),
        ensures
            final(self).wf(),
            final(self).positions@ == positions_with(old(self).positions@, *position),
            final(self).changed_positions_view() == marked(
                old(self).changed_positions_view(),
                position.id,
            ),
            final(self).markets_to_update == old(self).markets_to_update,
            same_setting(*old(self), *final(self)),
            same_markets(*old(self), *final(self)),
            same_prices(*old(self), *final(self)),
    {
        self.preload_position(position);
        mark(&mut self.positions_to_update, position.id);
    }

    /// The ids of the cached positions that have changed.
    pub fn changed_positions(&self) -> (r: Vec<u32>)
        ensures
            r@ == self.changed_positions_view(),
    {
        host_vec_items(&self.positions_to_update)
    }

    /// The assets of the cached markets that have changed.
    pub fn changed_markets(&self) -> (r: Vec<AssetId>)
        ensures
            r@ == self.changed_markets_view(),
    {
        host_vec_items(&self.markets_to_update)
    }

    /// The keeper's share of `fee` under the settings of this invocation.
    pub fn calculate_caller_fee(&self, e: &Env, fee: i128) -> (r: i128)
        requires
            mul_floor_ok(fee as int, self.config.caller_take_rate as int, SCALAR_7 as int),
        ensures
            r as int == caller_share(fee as int, self.config.caller_take_rate as int),
    {
        calculate_caller_fee(e, &self.config, fee)
    }

    /// Whether a user who holds `positions` may open one more.
    pub fn check_max_positions(&self, positions: &Vec<u32>) -> (r: bool)
        ensures
            r == (positions@.len() < self.config.max_positions),
    {
        positions.len() < self.config.max_positions as usize
    }
}

} // verus!
