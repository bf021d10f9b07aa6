use crate::fixed_point::fits_i128;
use crate::hostdata::{host_vec_items, host_vec_new, host_vec_push, items_of, no_items, IdList};
use crate::types::AccountId;
use soroban_sdk::Env;
use vstd::prelude::*;

verus! {

/// The host's ordered map, which holds the net transfers of a batch.
#[verifier::external_type_specification]
#[verifier::external_body]
#[verifier::reject_recursive_types(K)]
#[verifier::reject_recursive_types(V)]
pub struct ExHostMap<K, V>(soroban_sdk::Map<K, V>);

/// A host map from accounts to signed amounts.
pub type TransferMap = soroban_sdk::Map<u64, i128>;

/// The map without entries.
pub open spec fn no_transfers() -> Map<u64, i128> {
    Map::empty()
}

/// The entries of a host map from accounts to amounts.
pub uninterp spec fn entries_of(m: soroban_sdk::Map<u64, i128>) -> Map<u64, i128>;

/// Calls `Map::new`, which gives a map without entries.
#[verifier::external_body]
fn host_map_new(e: &Env) -> (fresh: TransferMap)
    ensures
        entries_of(fresh) == no_transfers(),
{
    soroban_sdk::Map::new(e)
}

/// Calls `Map::get`, which gives the value stored under `key`, or `None`
/// where the map holds no such key.
#[verifier::external_body]
fn host_map_get(m: &TransferMap, key: u64) -> (r: Option<i128>)
    ensures
        r == (if entries_of(*m).contains_key(key) {
            Some(entries_of(*m)[key])
        } else {
            None
        }),
{
    m.get(key)
}

/// Calls `Map::set`, which stores `value` under `key` and replaces what was
/// stored there before; the other entries stay.
#[verifier::external_body]
fn host_map_set(m: &mut TransferMap, key: u64, value: i128)
    ensures
        entries_of(*final(m)) == entries_of(*old(m)).insert(key, value),
{
    m.set(key, value)
}

/// Calls `Map::keys`, which lists every key of the map once, and copies the
/// list into a vector.
#[verifier::external_body]
fn host_map_keys(m: &TransferMap) -> (keys: Vec<u64>)
    ensures
        keys@.no_duplicates(),
        forall|k: u64| keys@.contains(k) <==> entries_of(*m).contains_key(k),
{
    m.keys().iter().collect()
}

/// The net transfers that a batch has built up, and the result code of each
/// request in the order of the requests. A positive amount is owed to the
/// account, a negative one is owed by it.
pub struct SubmitResult {
    pub transfers: TransferMap,
    pub results: IdList,
}

/// The amount recorded for `account` in `transfers`, zero where there is
/// none.
pub open spec fn amount_of(transfers: Map<u64, i128>, account: AccountId) -> int {
    if transfers.contains_key(account) {
        transfers[account] as int
    } else {
        0
    }
}

/// `transfers` with `amount` added to what is recorded for `account`.
pub open spec fn with_transfer(transfers: Map<u64, i128>, account: AccountId, amount: int) -> Map<
    u64,
    i128,
> {
    transfers.insert(account, (amount_of(transfers, account) + amount) as i128)
}

impl SubmitResult {
    /// The recorded transfers, by account.
    pub open spec fn transfers_view(self) -> Map<u64, i128> {
        entries_of(self.transfers)
    }

    /// A result without transfers or result codes.
    pub fn new(e: &Env) -> (r: SubmitResult)
        ensures
            r.transfers_view() == no_transfers(),
            r.results_view() == no_items(),
    {
        SubmitResult { transfers: host_map_new(e), results: host_vec_new(e) }
    }

    /// The result codes, one per request, in the order of the requests.
    pub open spec fn results_view(self) -> Seq<u32> {
        items_of(self.results)
    }

    /// The result codes gathered so far.
    pub fn codes(&self) -> (r: Vec<u32>)
        ensures
            r@ == self.results_view(),
    {
        host_vec_items(&self.results)
    }

    /// Adds a result code at the end.
    pub fn push_result(&mut self, code: u32)
        ensures
            final(self).results_view() == old(self).results_view().push(code),
            final(self).transfers == old(self).transfers,
    {
        host_vec_push(&mut self.results, code);
    }

    /// The amount recorded for `address`, zero where there is none.
    pub fn transfer_of(&self, address: AccountId) -> (r: i128)
        ensures
            r as int == amount_of(self.transfers_view(), address),
    {
        match host_map_get(&self.transfers, address) {
            Some(v) => v,
            None => 0,
        }
    }

    /// Every account that has an entry, each once.
    pub fn accounts(&self) -> (keys: Vec<AccountId>)
        ensures
            keys@.no_duplicates(),
            forall|k: u64| keys@.contains(k) <==> self.transfers_view().contains_key(k),
    {
        host_map_keys(&self.transfers)
    }

    /// Adds the signed `amount` to what is recorded for `address`.
    pub fn add_transfer(&mut self, address: AccountId, amount: i128)
        requires
            fits_i128(amount_of(old(self).transfers_view(), address) + amount),
        ensures
            final(self).transfers_view() == with_transfer(
                old(self).transfers_view(),
                address,
                amount as int,
            ),
            final(self).results == old(self).results,
    {
        let current = self.transfer_of(address);
        host_map_set(&mut self.transfers, address, amount + current);
    }
}

} // verus!
