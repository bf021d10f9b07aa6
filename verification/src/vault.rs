use crate::constants::SCALAR_7;
use crate::errors::VaultError;
use crate::fixed_point::{fits_i128, fixed_mul_floor, floor_div, mul_floor_ok};
use crate::lookup::{first_at, has_key, lemma_first_at, slot_of};
use crate::types::AccountId;
use soroban_sdk::Env;
use vstd::prelude::*;

verus! {

/// Shares locked for withdrawal, and the time from which they can be
/// redeemed without penalty.
#[derive(Clone, Copy, Debug, PartialEq, Eq, Structural)]
pub struct WithdrawalRequest {
    pub shares: i128,
    pub unlock_time: u64,
}

/// The queued withdrawal of one account.
#[derive(Clone, Copy, Debug, PartialEq, Eq, Structural)]
pub struct PendingWithdrawal {
    pub owner: AccountId,
    pub request: WithdrawalRequest,
}

/// A registered strategy and the net amount that it has moved into the
/// vault over time; negative while it holds more than it has returned.
#[derive(Clone, Copy, Debug, PartialEq, Eq, Structural)]
pub struct StrategyImpact {
    pub strategy: AccountId,
    pub net_impact: i128,
}

/// The vault's books: the shares issued, the tokens held, the queued
/// withdrawals and the strategies' running balances.
pub struct Vault {
    pub token: AccountId,
    pub share_token: AccountId,
    /// Shares in circulation, those locked for withdrawal included.
    pub total_shares: i128,
    /// The vault's balance of the underlying token.
    pub total_tokens: i128,
    /// Seconds between queueing a withdrawal and its unlock time.
    pub lock_time: u64,
    /// Penalty on an emergency withdrawal right after queueing, at
    /// `SCALAR_7`.
    pub max_penalty_rate: i128,
    pub strategies: Vec<StrategyImpact>,
    pub withdrawals: Vec<PendingWithdrawal>,
}

/// The owners of queued withdrawals, in order.
pub open spec fn owner_keys(withdrawals: Seq<PendingWithdrawal>) -> Seq<int> {
    Seq::new(withdrawals.len(), |i: int| withdrawals[i].owner as int)
}

/// The registered strategies, in order.
pub open spec fn strategy_keys(strategies: Seq<StrategyImpact>) -> Seq<int> {
    Seq::new(strategies.len(), |i: int| strategies[i].strategy as int)
}

/// No account has two queued withdrawals.
pub open spec fn one_request_each(withdrawals: Seq<PendingWithdrawal>) -> bool {
    forall|i: int, j: int|
        0 <= i < j < withdrawals.len() ==> withdrawals[i].owner != withdrawals[j].owner
}

/// The shares that a deposit of `tokens` mints: as many as tokens while the
/// vault is empty, else in proportion to the shares per token, rounded
/// down.
pub open spec fn shares_for(tokens: int, total_shares: int, total_tokens: int) -> int {
    if total_shares == 0 || total_tokens == 0 {
        tokens
    } else {
        floor_div(tokens * total_shares, total_tokens)
    }
}

/// The tokens that `shares` are worth, rounded down.
pub open spec fn tokens_for(shares: int, total_shares: int, total_tokens: int) -> int {
    floor_div(shares * total_tokens, total_shares)
}

/// The penalty rate with `remaining` seconds of the lock left: the full
/// rate scaled by the part of the lock that is left, rounded down.
pub open spec fn penalty_rate_at(max_rate: int, remaining: int, lock_time: int) -> int {
    floor_div(max_rate * remaining, lock_time)
}

/// The penalty on withdrawing `tokens` at `now`: nothing from the unlock
/// time on, before it the tokens times the present penalty rate, rounded
/// down.
pub open spec fn penalty_of(
    tokens: int,
    max_rate: int,
    unlock_time: u64,
    now: u64,
    lock_time: u64,
) -> int {
    if now >= unlock_time {
        0
    } else {
        floor_div(
            tokens * penalty_rate_at(max_rate, unlock_time - now, lock_time as int),
            SCALAR_7 as int,
        )
    }
}

/// A vault with the given books.
pub open spec fn vault_with(
    vault: Vault,
    total_shares: int,
    total_tokens: int,
    strategies: Seq<StrategyImpact>,
    withdrawals: Seq<PendingWithdrawal>,
    after: Vault,
) -> bool {
    &&& after.token == vault.token
    &&& after.share_token == vault.share_token
    &&& after.lock_time == vault.lock_time
    &&& after.max_penalty_rate == vault.max_penalty_rate
    &&& after.total_shares == total_shares
    &&& after.total_tokens == total_tokens
    &&& after.strategies@ == strategies
    &&& after.withdrawals@ == withdrawals
}

impl Vault {
    /// The books are in order: the penalty rate is a fraction of one and no
    /// account has two queued withdrawals.
    pub open spec fn wf(self) -> bool {
        &&& 0 <= self.max_penalty_rate <= SCALAR_7
        &&& one_request_each(self.withdrawals@)
    }

    /// The queued withdrawal of `owner`, if there is one.
    pub open spec fn request_of(self, owner: AccountId) -> Option<WithdrawalRequest> {
        if has_key(owner_keys(self.withdrawals@), owner as int) {
            Some(self.withdrawals@[slot_of(owner_keys(self.withdrawals@), owner as int)].request)
        } else {
            None
        }
    }

    /// Whether `strategy` is registered.
    pub open spec fn is_strategy(self, strategy: AccountId) -> bool {
        has_key(strategy_keys(self.strategies@), strategy as int)
    }

    /// The place of `strategy` among the registered strategies.
    pub open spec fn strategy_slot(self, strategy: AccountId) -> int {
        slot_of(strategy_keys(self.strategies@), strategy as int)
    }

    /// The place of the queued withdrawal of `owner`.
    pub open spec fn request_slot(self, owner: AccountId) -> int {
        slot_of(owner_keys(self.withdrawals@), owner as int)
    }

    /// Sets up an empty vault with the given strategies, each with a net
    /// impact of zero. A penalty rate outside `[0, SCALAR_7]` is refused
    /// with `InvalidAmount`.
    pub fn new(
        token: AccountId,
        share_token: AccountId,
        strategies: &Vec<AccountId>,
        lock_time: u64,
        penalty_rate: i128,
    ) -> (r: Result<Vault, VaultError>)
        ensures
            !(0 <= penalty_rate <= SCALAR_7) ==> r == Err::<Vault, VaultError>(
                VaultError::InvalidAmount,
            ),
            0 <= penalty_rate <= SCALAR_7 ==> r.is_ok() && r.unwrap().wf() && r.unwrap().token
                == token && r.unwrap().share_token == share_token && r.unwrap().total_shares == 0
                && r.unwrap().total_tokens == 0 && r.unwrap().lock_time == lock_time
                && r.unwrap().max_penalty_rate == penalty_rate && r.unwrap().withdrawals@.len()
                == 0 && r.unwrap().strategies@ == Seq::new(
                strategies@.len(),
                |i: int| StrategyImpact { strategy: strategies@[i], net_impact: 0 },
            ),
    {
        if penalty_rate < 0 || penalty_rate > SCALAR_7 {
            return Err(VaultError::InvalidAmount);
        }
        let mut registered: Vec<StrategyImpact> = Vec::new();
        let mut i: usize = 0;
        while i < strategies.len()
            invariant
                i <= strategies.len(),
                registered@ == Seq::new(
                    i as nat,
                    |k: int| StrategyImpact { strategy: strategies@[k], net_impact: 0 },
                ),
            decreases strategies.len() - i,
        {
            registered.push(StrategyImpact { strategy: strategies[i], net_impact: 0 });
            i = i + 1;
        }
        Ok(
            Vault {
                token,
                share_token,
                total_shares: 0,
                total_tokens: 0,
                lock_time,
                max_penalty_rate: penalty_rate,
                strategies: registered,
                withdrawals: Vec::new(),
            },
        )
    }

    /// The underlying token.
    pub fn query_asset(&self) -> (r: AccountId)
        ensures
            r == self.token,
    {
        self.token
    }

    /// The vault's balance of the underlying token.
    pub fn total_assets(&self) -> (r: i128)
        ensures
            r == self.total_tokens,
    {
        self.total_tokens
    }

    /// The shares in circulation.
    pub fn total_shares(&self) -> (r: i128)
        ensures
            r == self.total_shares,
    {
        self.total_shares
    }

    fn find_strategy(&self, strategy: AccountId) -> (r: Option<usize>)
        ensures
            match r {
                Some(i) => first_at(strategy_keys(self.strategies@), strategy as int, i as int),
                None => !self.is_strategy(strategy),
            },
    {
        let mut i: usize = 0;
        while i < self.strategies.len()
            invariant
                i <= self.strategies.len(),
                forall|j: int| 0 <= j < i ==> strategy_keys(self.strategies@)[j] != strategy as int,
            decreases self.strategies.len() - i,
        {
            if self.strategies[i].strategy == strategy {
                return Some(i);
            }
            i = i + 1;
        }
        None
    }

    fn find_request(&self, owner: AccountId) -> (r: Option<usize>)
        ensures
            match r {
                Some(i) => first_at(owner_keys(self.withdrawals@), owner as int, i as int)
                    && self.request_of(owner) == Some(self.withdrawals@[i as int].request)
                    && self.request_slot(owner) == i,
                None => self.request_of(owner) is None,
            },
    {
        let mut i: usize = 0;
        while i < self.withdrawals.len()
            invariant
                i <= self.withdrawals.len(),
                forall|j: int| 0 <= j < i ==> owner_keys(self.withdrawals@)[j] != owner as int,
            decreases self.withdrawals.len() - i,
        {
            if self.withdrawals[i].owner == owner {
                proof {
                    lemma_first_at(owner_keys(self.withdrawals@), owner as int, i as int);
                }
                return Some(i);
            }
            i = i + 1;
        }
        None
    }

    /// The net impact of `strategy`; zero for an account that is not a
    /// registered strategy.
    pub fn net_impact(&self, strategy: AccountId) -> (r: i128)
        ensures
            r == (if self.is_strategy(strategy) {
                self.strategies@[self.strategy_slot(strategy)].net_impact
            } else {
                0
            }),
    {
        match self.find_strategy(strategy) {
            Some(i) => {
                proof {
                    lemma_first_at(strategy_keys(self.strategies@), strategy as int, i as int);
                }
                self.strategies[i].net_impact
            },
            None => 0,
        }
    }

    /// Whether `owner` has a queued withdrawal.
    pub fn has_withdrawal_request(&self, owner: AccountId) -> (r: bool)
        ensures
            r == self.request_of(owner).is_some(),
    {
        self.find_request(owner).is_some()
    }

    /// The queued withdrawal of `owner`.
    pub fn get_withdrawal_request(&self, owner: AccountId) -> (r: Option<WithdrawalRequest>)
        ensures
            r == self.request_of(owner),
    {
        match self.find_request(owner) {
            Some(i) => Some(self.withdrawals[i].request),
            None => None,
        }
    }

    /// The deposit can be computed in 128 bits.
    pub open spec fn deposit_ok(self, tokens: int) -> bool {
        tokens > 0 ==> {
            &&& self.total_shares != 0 && self.total_tokens != 0 ==> mul_floor_ok(
                tokens,
                self.total_shares as int,
                self.total_tokens as int,
            )
            &&& fits_i128(self.total_tokens + tokens)
            &&& fits_i128(
                self.total_shares + shares_for(
                    tokens,
                    self.total_shares as int,
                    self.total_tokens as int,
                ),
            )
        }
    }

    /// Takes in `tokens` and returns the shares to mint for them. An
    /// amount that is not positive is refused with `ZeroAmount`.
    pub fn deposit(&mut self, e: &Env, tokens: i128) -> (r: Result<i128, VaultError>)
        requires
            old(self).deposit_ok(tokens as int),
        ensures
            tokens <= 0 ==> r == Err::<i128, VaultError>(VaultError::ZeroAmount) && *final(self)
                == *old(self),
            tokens > 0 ==> r.is_ok() && r.unwrap() as int == shares_for(
                tokens as int,
                old(self).total_shares as int,
                old(self).total_tokens as int,
            ) && vault_with(
                *old(self),
                old(self).total_shares + r.unwrap(),
                old(self).total_tokens + tokens,
                old(self).strategies@,
                old(self).withdrawals@,
                *final(self),
            ),
            old(self).wf() ==> final(self).wf(),
    {
        if tokens <= 0 {
            return Err(VaultError::ZeroAmount);
        }
        let shares = if self.total_shares == 0 || self.total_tokens == 0 {
            tokens
        } else {
            fixed_mul_floor(e, tokens, self.total_shares, self.total_tokens)
        };
        self.total_tokens = self.total_tokens + tokens;
        self.total_shares = self.total_shares + shares;
        Ok(shares)
    }

    /// Why a withdrawal cannot be queued, if it cannot.
    pub open spec fn queue_error(self, shares: int, owner: AccountId, owner_shares: int) -> Option<
        VaultError,
    > {
        if shares <= 0 {
            Some(VaultError::ZeroAmount)
        } else if self.request_of(owner).is_some() {
            Some(VaultError::WithdrawalInProgress)
        } else if owner_shares < shares {
            Some(VaultError::InsufficientShares)
        } else {
            None
        }
    }

    /// Locks `shares` of `owner`, who holds `owner_shares`, for withdrawal
    /// from `now + lock_time` on. Refused with `ZeroAmount` for an amount
    /// that is not positive, with `WithdrawalInProgress` while the owner
    /// has a withdrawal queued, with `InsufficientShares` where the owner
    /// holds too few.
    pub fn queue_withdraw(&mut self, shares: i128, owner: AccountId, owner_shares: i128, now: u64) -> (r:
        Result<WithdrawalRequest, VaultError>)
        requires
            old(self).wf(),
            now + old(self).lock_time <= u64::MAX,
        ensures
            final(self).wf(),
            r == (match old(self).queue_error(shares as int, owner, owner_shares as int) {
                Some(error) => Err::<WithdrawalRequest, VaultError>(error),
                None => Ok(
                    WithdrawalRequest {
                        shares,
                        unlock_time: (now + old(self).lock_time) as u64,
                    },
                ),
            }),
            r.is_err() ==> *final(self) == *old(self),
            r.is_ok() ==> vault_with(
                *old(self),
                old(self).total_shares as int,
                old(self).total_tokens as int,
                old(self).strategies@,
                old(self).withdrawals@.push(PendingWithdrawal { owner, request: r.unwrap() }),
                *final(self),
            ) && final(self).request_of(owner) == Some(r.unwrap()),
    {
        if shares <= 0 {
            return Err(VaultError::ZeroAmount);
        }
        if self.find_request(owner).is_some() {
            return Err(VaultError::WithdrawalInProgress);
        }
        if owner_shares < shares {
            return Err(VaultError::InsufficientShares);
        }
        let request = WithdrawalRequest { shares, unlock_time: now + self.lock_time };
        let ghost before = self.withdrawals@;
        self.withdrawals.push(PendingWithdrawal { owner, request });
        proof {
            let after = self.withdrawals@;
            assert forall|j: int| 0 <= j < before.len() implies before[j].owner != owner by {
                if before[j].owner == owner {
                    assert(owner_keys(before)[j] == owner as int);
                }
            }
            assert(first_at(owner_keys(after), owner as int, before.len() as int));
            lemma_first_at(owner_keys(after), owner as int, before.len() as int);
        }
        Ok(request)
    }

    fn take_request(&mut self, owner: AccountId) -> (r: WithdrawalRequest)
        requires
            old(self).wf(),
            old(self).request_of(owner).is_some(),
        ensures
            final(self).wf(),
            Some(r) == old(self).request_of(owner),
            final(self).request_of(owner) is None,
            vault_with(
                *old(self),
                old(self).total_shares as int,
                old(self).total_tokens as int,
                old(self).strategies@,
                old(self).withdrawals@.remove(old(self).request_slot(owner)),
                *final(self),
            ),
    {
        let found = self.find_request(owner);
        let i = found.unwrap();
        let ghost before = self.withdrawals@;
        let entry = self.withdrawals.remove(i);
        proof {
            let after = self.withdrawals@;
            assert(after == before.remove(i as int));
            assert(one_request_each(after)) by {
                assert forall|a: int, b: int| 0 <= a < b < after.len() implies after[a].owner
                    != after[b].owner by {
                    let a0 = if a < i { a } else { a + 1 };
                    let b0 = if b < i { b } else { b + 1 };
                    assert(after[a] == before[a0]);
                    assert(after[b] == before[b0]);
                }
            }
            if has_key(owner_keys(after), owner as int) {
                let k = choose|k: int| 0 <= k < after.len() && owner_keys(after)[k] == owner as int;
                let k0 = if k < i { k } else { k + 1 };
                assert(after[k] == before[k0]);
                assert(before[k0].owner == before[i as int].owner);
                assert(false);
            }
        }
        entry.request
    }

    /// The withdrawal of `owner` can be computed in 128 bits.
    pub open spec fn withdraw_ok(self, owner: AccountId) -> bool {
        match self.request_of(owner) {
            None => true,
            Some(request) => {
                &&& mul_floor_ok(
                    request.shares as int,
                    self.total_tokens as int,
                    self.total_shares as int,
                )
                &&& fits_i128(self.total_shares - request.shares)
                &&& fits_i128(
                    self.total_tokens - tokens_for(
                        request.shares as int,
                        self.total_shares as int,
                        self.total_tokens as int,
                    ),
                )
            },
        }
    }

    /// The tokens that the queued shares of `owner` are worth now.
    pub open spec fn current_tokens(self, owner: AccountId) -> int {
        tokens_for(
            self.request_of(owner).unwrap().shares as int,
            self.total_shares as int,
            self.total_tokens as int,
        )
    }

    /// Redeems the queued shares of `user` at the present share price.
    /// Refused with `WithdrawalLocked` before the unlock time.
    pub fn withdraw(&mut self, e: &Env, user: AccountId, now: u64) -> (r: Result<i128, VaultError>)
        requires
            old(self).wf(),
            old(self).request_of(user).is_some(),
            old(self).withdraw_ok(user),
        ensures
            final(self).wf(),
            now < old(self).request_of(user).unwrap().unlock_time ==> r == Err::<i128, VaultError>(
                VaultError::WithdrawalLocked,
            ) && *final(self) == *old(self),
            now >= old(self).request_of(user).unwrap().unlock_time ==> r.is_ok() && r.unwrap()
                == old(self).current_tokens(user) && final(self).request_of(user) is None
                && vault_with(
                *old(self),
                old(self).total_shares - old(self).request_of(user).unwrap().shares,
                old(self).total_tokens - r.unwrap(),
                old(self).strategies@,
                old(self).withdrawals@.remove(old(self).request_slot(user)),
                *final(self),
            ),
    {
        let request = self.get_withdrawal_request(user).unwrap();
        if now < request.unlock_time {
            return Err(VaultError::WithdrawalLocked);
        }
        let tokens = fixed_mul_floor(e, request.shares, self.total_tokens, self.total_shares);
        self.take_request(user);
        self.total_shares = self.total_shares - request.shares;
        self.total_tokens = self.total_tokens - tokens;
        Ok(tokens)
    }

    /// The penalty that `owner` would pay on an emergency withdrawal at
    /// `now`.
    pub open spec fn penalty_at(self, owner: AccountId, now: u64) -> int {
        penalty_of(
            self.current_tokens(owner),
            self.max_penalty_rate as int,
            self.request_of(owner).unwrap().unlock_time,
            now,
            self.lock_time,
        )
    }

    /// The emergency withdrawal of `owner` can be computed in 128 bits.
    pub open spec fn emergency_ok(self, owner: AccountId, now: u64) -> bool {
        match self.request_of(owner) {
            None => true,
            Some(request) => {
                &&& mul_floor_ok(
                    request.shares as int,
                    self.total_tokens as int,
                    self.total_shares as int,
                )
                &&& now < request.unlock_time ==> {
                    &&& mul_floor_ok(
                        self.max_penalty_rate as int,
                        request.unlock_time - now,
                        self.lock_time as int,
                    )
                    &&& mul_floor_ok(
                        self.current_tokens(owner),
                        penalty_rate_at(
                            self.max_penalty_rate as int,
                            request.unlock_time - now,
                            self.lock_time as int,
                        ),
                        SCALAR_7 as int,
                    )
                }
                &&& fits_i128(self.current_tokens(owner) - self.penalty_at(owner, now))
                &&& fits_i128(self.total_shares - request.shares)
                &&& fits_i128(
                    self.total_tokens - (self.current_tokens(owner) - self.penalty_at(owner, now)),
                )
            },
        }
    }

    /// What the queued shares of `owner` are worth at the present share
    /// price.
    pub fn current_worth(&self, e: &Env, owner: AccountId) -> (r: i128)
        requires
            self.request_of(owner).is_some(),
            mul_floor_ok(
                self.request_of(owner).unwrap().shares as int,
                self.total_tokens as int,
                self.total_shares as int,
            ),
        ensures
            r == self.current_tokens(owner),
    {
        let request = self.get_withdrawal_request(owner).unwrap();
        fixed_mul_floor(e, request.shares, self.total_tokens, self.total_shares)
    }

    /// The penalty that an emergency withdrawal of `owner` costs at `now`.
    pub fn emergency_penalty(&self, e: &Env, owner: AccountId, now: u64) -> (r: i128)
        requires
            self.request_of(owner).is_some(),
            self.emergency_ok(owner, now),
        ensures
            r == self.penalty_at(owner, now),
    {
        let request = self.get_withdrawal_request(owner).unwrap();
        if now >= request.unlock_time {
            0
        } else {
            let current = self.current_worth(e, owner);
            let remaining = request.unlock_time - now;
            let rate = fixed_mul_floor(
                e,
                self.max_penalty_rate,
                remaining as i128,
                self.lock_time as i128,
            );
            fixed_mul_floor(e, current, rate, SCALAR_7)
        }
    }

    /// Redeems the queued shares of `owner` at once, less the penalty for
    /// the part of the lock that is left; the penalty stays in the vault.
    /// Refused with `InvalidAmount` where nothing would be paid out.
    pub fn emergency_withdraw(&mut self, e: &Env, owner: AccountId, now: u64) -> (r: Result<
        i128,
        VaultError,
    >)
        requires
            old(self).wf(),
            old(self).request_of(owner).is_some(),
            old(self).emergency_ok(owner, now),
        ensures
            final(self).wf(),
            old(self).current_tokens(owner) - old(self).penalty_at(owner, now) <= 0 ==> r == Err::<
                i128,
                VaultError,
            >(VaultError::InvalidAmount) && *final(self) == *old(self),
            old(self).current_tokens(owner) - old(self).penalty_at(owner, now) > 0 ==> r.is_ok()
                && r.unwrap() == old(self).current_tokens(owner) - old(self).penalty_at(owner, now)
                && final(self).request_of(owner) is None && vault_with(
                *old(self),
                old(self).total_shares - old(self).request_of(owner).unwrap().shares,
                old(self).total_tokens - r.unwrap(),
                old(self).strategies@,
                old(self).withdrawals@.remove(old(self).request_slot(owner)),
                *final(self),
            ),
    {
        let request = self.get_withdrawal_request(owner).unwrap();
        let current = self.current_worth(e, owner);
        let penalty = self.emergency_penalty(e, owner, now);
        let payout = current - penalty;
        if payout <= 0 {
            return Err(VaultError::InvalidAmount);
        }
        self.take_request(owner);
        self.total_shares = self.total_shares - request.shares;
        self.total_tokens = self.total_tokens - payout;
        Ok(payout)
    }

    /// Drops the queued withdrawal of `owner` and returns the shares to
    /// hand back; shares and tokens of the vault stay as they are.
    pub fn cancel_withdraw(&mut self, owner: AccountId) -> (r: i128)
        requires
            old(self).wf(),
            old(self).request_of(owner).is_some(),
        ensures
            final(self).wf(),
            r == old(self).request_of(owner).unwrap().shares,
            final(self).request_of(owner) is None,
            vault_with(
                *old(self),
                old(self).total_shares as int,
                old(self).total_tokens as int,
                old(self).strategies@,
                old(self).withdrawals@.remove(old(self).request_slot(owner)),
                *final(self),
            ),
    {
        let request = self.take_request(owner);
        request.shares
    }

    /// Why a strategy cannot take `amount` out, if it cannot.
    pub open spec fn strategy_withdraw_error(self, strategy: AccountId, amount: int) -> Option<
        VaultError,
    > {
        if amount <= 0 {
            Some(VaultError::ZeroAmount)
        } else if !self.is_strategy(strategy) {
            Some(VaultError::UnauthorizedStrategy)
        } else if self.total_tokens < amount {
            Some(VaultError::InsufficientVaultBalance)
        } else {
            None
        }
    }

    /// The strategies with `change` added to the net impact of `strategy`.
    pub open spec fn impacts_with(self, strategy: AccountId, change: int) -> Seq<StrategyImpact> {
        self.strategies@.update(
            self.strategy_slot(strategy),
            StrategyImpact {
                strategy,
                net_impact: (self.strategies@[self.strategy_slot(strategy)].net_impact
                    + change) as i128,
            },
        )
    }

    /// The net impact of `strategy` can take `change` within 128 bits.
    pub open spec fn impact_ok(self, strategy: AccountId, change: int) -> bool {
        self.is_strategy(strategy) ==> fits_i128(
            self.strategies@[self.strategy_slot(strategy)].net_impact + change,
        )
    }

    /// Pays `amount` out to a registered strategy and lowers its net
    /// impact by as much.
    pub fn strategy_withdraw(&mut self, strategy: AccountId, amount: i128) -> (r: Result<
        (),
        VaultError,
    >)
        requires
            old(self).strategy_withdraw_error(strategy, amount as int) is None ==> old(
                self,
            ).impact_ok(strategy, -(amount as int)) && fits_i128(old(self).total_tokens - amount),
        ensures
            old(self).wf() ==> final(self).wf(),
            r == (match old(self).strategy_withdraw_error(strategy, amount as int) {
                Some(error) => Err::<(), VaultError>(error),
                None => Ok(()),
            }),
            r.is_err() ==> *final(self) == *old(self),
            r.is_ok() ==> vault_with(
                *old(self),
                old(self).total_shares as int,
                old(self).total_tokens - amount,
                old(self).impacts_with(strategy, -(amount as int)),
                old(self).withdrawals@,
                *final(self),
            ),
    {
        if amount <= 0 {
            return Err(VaultError::ZeroAmount);
        }
        let i = match self.find_strategy(strategy) {
            Some(i) => i,
            None => {
                return Err(VaultError::UnauthorizedStrategy);
            },
        };
        if self.total_tokens < amount {
            return Err(VaultError::InsufficientVaultBalance);
        }
        proof {
            lemma_first_at(strategy_keys(self.strategies@), strategy as int, i as int);
        }
        let impact = self.strategies[i].net_impact - amount;
        self.strategies[i] = StrategyImpact { strategy, net_impact: impact };
        self.total_tokens = self.total_tokens - amount;
        Ok(())
    }

    /// Why a strategy cannot pay `amount` in, if it cannot.
    pub open spec fn strategy_deposit_error(self, strategy: AccountId, amount: int) -> Option<
        VaultError,
    > {
        if amount <= 0 {
            Some(VaultError::ZeroAmount)
        } else if !self.is_strategy(strategy) {
            Some(VaultError::UnauthorizedStrategy)
        } else {
            None
        }
    }

    /// Takes `amount` in from a registered strategy and raises its net
    /// impact by as much.
    pub fn strategy_deposit(&mut self, strategy: AccountId, amount: i128) -> (r: Result<
        (),
        VaultError,
    >)
        requires
            old(self).strategy_deposit_error(strategy, amount as int) is None ==> old(
                self,
            ).impact_ok(strategy, amount as int) && fits_i128(old(self).total_tokens + amount),
        ensures
            old(self).wf() ==> final(self).wf(),
            r == (match old(self).strategy_deposit_error(strategy, amount as int) {
                Some(error) => Err::<(), VaultError>(error),
                None => Ok(()),
            }),
            r.is_err() ==> *final(self) == *old(self),
            r.is_ok() ==> vault_with(
                *old(self),
                old(self).total_shares as int,
                old(self).total_tokens + amount,
                old(self).impacts_with(strategy, amount as int),
                old(self).withdrawals@,
                *final(self),
            ),
    {
        if amount <= 0 {
            return Err(VaultError::ZeroAmount);
        }
        let i = match self.find_strategy(strategy) {
            Some(i) => i,
            None => {
                return Err(VaultError::UnauthorizedStrategy);
            },
        };
        proof {
            lemma_first_at(strategy_keys(self.strategies@), strategy as int, i as int);
        }
        let impact = self.strategies[i].net_impact + amount;
        self.strategies[i] = StrategyImpact { strategy, net_impact: impact };
        self.total_tokens = self.total_tokens + amount;
        Ok(())
    }
}

} // verus!
