use crate::constants::{SCALAR_18, SCALAR_7};
use crate::fixed_point::{
    ceil_div, fits_i128, fixed_div_floor, fixed_mul_ceil, fixed_mul_floor, floor_div,
    mul_ceil_ok, mul_floor_ok,
};
use crate::market::Market;
use crate::requests::RequestType;
use crate::types::{Position, PositionStatus};
use soroban_sdk::Env;
use vstd::prelude::*;

verus! {

/// The base fee on `notional` at `rate`, rounded up.
pub open spec fn base_fee_of(notional: int, rate: int) -> int {
    ceil_div(notional * rate, SCALAR_7 as int)
}

/// The price-impact charge on `notional`: its square over the market's
/// scalar, brought back to seven decimals, rounded up at both steps.
pub open spec fn price_impact_of(notional: int, scalar: int) -> int {
    ceil_div(ceil_div(notional * notional, scalar), SCALAR_7 as int)
}

/// The price-impact charge can be computed in 128 bits.
pub open spec fn price_impact_ok(notional: int, scalar: int) -> bool {
    &&& mul_ceil_ok(notional, notional, scalar)
    &&& mul_ceil_ok(ceil_div(notional * notional, scalar), 1, SCALAR_7 as int)
}

/// The base fee on `notional_size` at `base_fee_rate`.
pub fn calculate_base_fee(e: &Env, notional_size: i128, base_fee_rate: i128) -> (r: i128)
    requires
        mul_ceil_ok(notional_size as int, base_fee_rate as int, SCALAR_7 as int),
    ensures
        r as int == base_fee_of(notional_size as int, base_fee_rate as int),
{
    fixed_mul_ceil(e, notional_size, base_fee_rate, SCALAR_7)
}

/// The price-impact charge on `notional_size` in a market with the given
/// scalar.
pub fn calculate_price_impact_fee(e: &Env, notional_size: i128, price_impact_scalar: i128) -> (r:
    i128)
    requires
        price_impact_ok(notional_size as int, price_impact_scalar as int),
    ensures
        r as int == price_impact_of(notional_size as int, price_impact_scalar as int),
{
    let squared = fixed_mul_ceil(e, notional_size, notional_size, price_impact_scalar);
    fixed_mul_ceil(e, squared, 1, SCALAR_7)
}

/// Interest on `notional_size` for an index that stood at `position_index`
/// and stands at `current_index`: the notional size times the growth of the
/// index, rounded down; negative where the index has fallen.
pub open spec fn interest_of(notional_size: int, position_index: int, current_index: int) -> int {
    floor_div(notional_size * (current_index - position_index), SCALAR_18 as int)
}

/// Works out the interest accrued between two values of an index.
pub fn calculate_borrowing_fee_from_index(
    e: &Env,
    notional_size: i128,
    position_index: i128,
    current_index: i128,
) -> (r: i128)
    requires
        fits_i128(current_index - position_index),
        fits_i128(interest_of(notional_size as int, position_index as int, current_index as int)),
    ensures
        r as int == interest_of(notional_size as int, position_index as int, current_index as int),
{
    fixed_mul_floor(e, notional_size, current_index - position_index, SCALAR_18)
}

/// Whether a position on the given side counts as on the dominant side of
/// `market`: its side carries at least as much notional as the other.
pub open spec fn side_dominant(market: Market, is_long: bool) -> bool {
    market.side_notional(is_long) >= market.side_notional(!is_long)
}

/// The keeper's share of `fee` before any cap, as a positive amount.
pub open spec fn raw_caller_fee(fee: int, take_rate: int) -> int {
    let share = floor_div(fee * take_rate, SCALAR_7 as int);
    if share >= 0 {
        share
    } else {
        -share
    }
}

/// Profit after fees. A negative fee is a rebate, out of which the keeper
/// is paid.
pub open spec fn net_pnl(pnl: int, fee: int, take_rate: int) -> int {
    if fee >= 0 {
        pnl - fee
    } else {
        pnl - fee - raw_caller_fee(fee, take_rate)
    }
}

/// What the owner receives on close: collateral plus net profit, never
/// less than nothing.
pub open spec fn user_payout_of(collateral: int, pnl: int, fee: int, take_rate: int) -> int {
    let total = collateral + net_pnl(pnl, fee, take_rate);
    if total > 0 {
        total
    } else {
        0
    }
}

/// What is left of the collateral once the owner is paid.
pub open spec fn remaining_of(collateral: int, pnl: int, fee: int, take_rate: int) -> int {
    let left = collateral - user_payout_of(collateral, pnl, fee, take_rate);
    if left > 0 {
        left
    } else {
        0
    }
}

/// What the keeper receives on close: its share of a positive fee, capped
/// by what is left of the collateral.
pub open spec fn caller_fee_of(collateral: int, pnl: int, fee: int, take_rate: int) -> int {
    if fee >= 0 {
        let raw = raw_caller_fee(fee, take_rate);
        let left = remaining_of(collateral, pnl, fee, take_rate);
        if raw < left {
            raw
        } else {
            left
        }
    } else {
        0
    }
}

/// What the vault receives on close; negative when the vault pays.
pub open spec fn vault_transfer_of(collateral: int, pnl: int, fee: int, take_rate: int) -> int {
    let payout = user_payout_of(collateral, pnl, fee, take_rate);
    if payout > collateral {
        -(payout - collateral)
    } else {
        remaining_of(collateral, pnl, fee, take_rate) - caller_fee_of(
            collateral,
            pnl,
            fee,
            take_rate,
        )
    }
}

/// The settlement can be computed in 128 bits.
pub open spec fn settle_ok(collateral: int, pnl: int, fee: int, take_rate: int) -> bool {
    &&& mul_floor_ok(fee, take_rate, SCALAR_7 as int)
    &&& fits_i128(raw_caller_fee(fee, take_rate))
    &&& fits_i128(pnl - fee)
    &&& fits_i128(net_pnl(pnl, fee, take_rate))
    &&& fits_i128(collateral + net_pnl(pnl, fee, take_rate))
    &&& fits_i128(collateral - user_payout_of(collateral, pnl, fee, take_rate))
}

/// How a close is settled.
#[derive(Clone, Copy, Debug, PartialEq, Eq, Structural)]
pub struct CloseCalc {
    pub price: i128,
    pub pnl: i128,
    pub fee: i128,
    /// Paid to the position's owner.
    pub user_payout: i128,
    /// Paid to the keeper.
    pub caller_fee: i128,
    /// Paid to the vault; negative when the vault pays.
    pub vault_transfer: i128,
}

/// Splits the outcome of a close between owner, keeper and vault. Returns
/// `(user_payout, caller_fee, vault_transfer)`.
pub fn settle_close(e: &Env, collateral: i128, pnl: i128, fee: i128, take_rate: i128) -> (r: (
    i128,
    i128,
    i128,
))
    requires
        settle_ok(collateral as int, pnl as int, fee as int, take_rate as int),
    ensures
        r.0 as int == user_payout_of(collateral as int, pnl as int, fee as int, take_rate as int),
        r.1 as int == caller_fee_of(collateral as int, pnl as int, fee as int, take_rate as int),
        r.2 as int == vault_transfer_of(
            collateral as int,
            pnl as int,
            fee as int,
            take_rate as int,
        ),
{
    let share = fixed_mul_floor(e, fee, take_rate, SCALAR_7);
    let raw = if share >= 0 {
        share
    } else {
        -share
    };
    let net = if fee >= 0 {
        pnl - fee
    } else {
        pnl - fee - raw
    };
    let total = collateral + net;
    let payout = if total > 0 {
        total
    } else {
        0
    };
    let left = collateral - payout;
    let remaining = if left > 0 {
        left
    } else {
        0
    };
    let caller_fee = if fee >= 0 {
        if raw < remaining {
            raw
        } else {
            remaining
        }
    } else {
        0
    };
    let vault_transfer = if payout > collateral {
        left
    } else {
        remaining - caller_fee
    };
    (payout, caller_fee, vault_transfer)
}

impl Position {
    /// Whether `action` may be applied to a position in this status.
    pub open spec fn action_allowed(self, action: RequestType) -> bool {
        match action {
            RequestType::Fill | RequestType::Cancel => self.status == PositionStatus::Pending,
            _ => self.status == PositionStatus::Open,
        }
    }

    /// Checks the position's status against the requested action.
    pub fn validate_action(&self, action: &RequestType) -> (r: bool)
        ensures
            r == self.action_allowed(*action),
    {
        match action {
            RequestType::Fill => self.status == PositionStatus::Pending,
            RequestType::Cancel => self.status == PositionStatus::Pending,
            _ => self.status == PositionStatus::Open,
        }
    }

    /// The move of the price in the position's favour.
    pub open spec fn price_diff(self, price: int) -> int {
        if self.is_long {
            price - self.entry_price
        } else {
            self.entry_price - price
        }
    }

    /// The move of the price as a fraction of the entry price, at
    /// `SCALAR_7`, rounded down.
    pub open spec fn price_change_ratio(self, price: int) -> int {
        floor_div(self.price_diff(price) * SCALAR_7 as int, self.entry_price as int)
    }

    /// Profit or loss at `price`: the notional size times the relative move
    /// of the price, rounded down at each step.
    pub open spec fn pnl(self, price: int) -> int {
        if self.price_diff(price) == 0 {
            0
        } else {
            floor_div(self.notional_size * self.price_change_ratio(price), SCALAR_7 as int)
        }
    }

    /// The profit at `price` can be computed in 128 bits.
    pub open spec fn pnl_ok(self, price: int) -> bool {
        &&& fits_i128(self.price_diff(price))
        &&& self.price_diff(price) != 0 ==> {
            &&& self.entry_price != 0
            &&& fits_i128(self.price_change_ratio(price))
            &&& fits_i128(self.pnl(price))
        }
    }

    /// Profit or loss of the position at `current_price`.
    pub fn calculate_pnl(&self, e: &Env, current_price: i128) -> (r: i128)
        requires
            self.pnl_ok(current_price as int),
        ensures
            r as int == self.pnl(current_price as int),
    {
        let diff = if self.is_long {
            current_price - self.entry_price
        } else {
            self.entry_price - current_price
        };
        if diff == 0 {
            0
        } else {
            let ratio = fixed_div_floor(e, diff, self.entry_price, SCALAR_7);
            fixed_mul_floor(e, self.notional_size, ratio, SCALAR_7)
        }
    }

    /// Growth of the side's index since the position last settled.
    pub open spec fn index_difference(self, market: Market) -> int {
        market.side_index(self.is_long) - self.interest_index
    }

    /// Interest accrued since the position last settled; negative when the
    /// position is owed interest.
    pub open spec fn accrued_interest(self, market: Market) -> int {
        interest_of(
            self.notional_size as int,
            self.interest_index as int,
            market.side_index(self.is_long),
        )
    }

    /// The accrued interest can be computed in 128 bits.
    pub open spec fn interest_ok(self, market: Market) -> bool {
        &&& fits_i128(self.index_difference(market))
        &&& fits_i128(self.accrued_interest(market))
    }

    /// Interest that the position has accrued against `market`.
    pub fn calculate_accrued_interest(&self, e: &Env, market: &Market) -> (r: i128)
        requires
            self.interest_ok(*market),
        ensures
            r as int == self.accrued_interest(*market),
    {
        let current = if self.is_long {
            market.data.long_interest_index
        } else {
            market.data.short_interest_index
        };
        calculate_borrowing_fee_from_index(e, self.notional_size, self.interest_index, current)
    }

    /// The base fee that closing the position costs: charged only while
    /// its side is dominant or the sides are level.
    pub open spec fn base_fee_amount(self, market: Market) -> int {
        if side_dominant(market, self.is_long) {
            base_fee_of(self.notional_size as int, market.config.base_fee as int)
        } else {
            0
        }
    }

    /// The price-impact charge of the position.
    pub open spec fn price_impact(self, market: Market) -> int {
        price_impact_of(self.notional_size as int, market.config.price_impact_scalar as int)
    }

    /// The fee of a close: base fee, price impact and accrued interest.
    pub open spec fn fee(self, market: Market) -> int {
        self.base_fee_amount(market) + self.price_impact(market) + self.accrued_interest(market)
    }

    /// The fee can be computed in 128 bits.
    pub open spec fn fee_ok(self, market: Market) -> bool {
        &&& side_dominant(market, self.is_long) ==> mul_ceil_ok(
            self.notional_size as int,
            market.config.base_fee as int,
            SCALAR_7 as int,
        )
        &&& price_impact_ok(
            self.notional_size as int,
            market.config.price_impact_scalar as int,
        )
        &&& self.interest_ok(market)
        &&& fits_i128(self.base_fee_amount(market) + self.price_impact(market))
        &&& fits_i128(self.fee(market))
    }

    /// The fee that closing the position against `market` costs.
    pub fn calculate_fee(&self, e: &Env, market: &Market) -> (r: i128)
        requires
            self.fee_ok(*market),
        ensures
            r as int == self.fee(*market),
    {
        let pays_base = if self.is_long {
            market.data.long_notional_size >= market.data.short_notional_size
        } else {
            market.data.short_notional_size >= market.data.long_notional_size
        };
        let base_fee = if pays_base {
            calculate_base_fee(e, self.notional_size, market.config.base_fee)
        } else {
            0
        };
        let impact = calculate_price_impact_fee(
            e,
            self.notional_size,
            market.config.price_impact_scalar,
        );
        let interest = self.calculate_accrued_interest(e, market);
        base_fee + impact + interest
    }

    /// Whether the take-profit trigger is set and reached at `price`.
    pub open spec fn take_profit_hit(self, price: int) -> bool {
        self.take_profit != 0 && if self.is_long {
            price >= self.take_profit
        } else {
            price <= self.take_profit
        }
    }

    /// Whether the stop-loss trigger is set and reached at `price`.
    pub open spec fn stop_loss_hit(self, price: int) -> bool {
        self.stop_loss != 0 && if self.is_long {
            price <= self.stop_loss
        } else {
            price >= self.stop_loss
        }
    }

    pub fn check_take_profit(&self, current_price: i128) -> (r: bool)
        ensures
            r == self.take_profit_hit(current_price as int),
    {
        if self.take_profit == 0 {
            return false;
        }
        if self.is_long {
            current_price >= self.take_profit
        } else {
            current_price <= self.take_profit
        }
    }

    pub fn check_stop_loss(&self, current_price: i128) -> (r: bool)
        ensures
            r == self.stop_loss_hit(current_price as int),
    {
        if self.stop_loss == 0 {
            return false;
        }
        if self.is_long {
            current_price <= self.stop_loss
        } else {
            current_price >= self.stop_loss
        }
    }

    /// The close of the position at `price` can be computed in 128 bits.
    pub open spec fn close_ok(self, market: Market, price: int, take_rate: int) -> bool {
        &&& self.pnl_ok(price)
        &&& self.fee_ok(market)
        &&& settle_ok(self.collateral as int, self.pnl(price), self.fee(market), take_rate)
    }

    /// How the position is settled when closed at `price` against `market`.
    pub open spec fn close_calc(self, market: Market, price: i128, take_rate: int) -> CloseCalc {
        let pnl = self.pnl(price as int);
        let fee = self.fee(market);
        let c = self.collateral as int;
        CloseCalc {
            price,
            pnl: pnl as i128,
            fee: fee as i128,
            user_payout: user_payout_of(c, pnl, fee, take_rate) as i128,
            caller_fee: caller_fee_of(c, pnl, fee, take_rate) as i128,
            vault_transfer: vault_transfer_of(c, pnl, fee, take_rate) as i128,
        }
    }

    /// Works out profit, fee and the three payments of a close at `price`.
    pub fn calculate_close(&self, e: &Env, market: &Market, price: i128, take_rate: i128) -> (r:
        CloseCalc)
        requires
            self.close_ok(*market, price as int, take_rate as int),
        ensures
            r == self.close_calc(*market, price, take_rate as int),
    {
        let pnl = self.calculate_pnl(e, price);
        let fee = self.calculate_fee(e, market);
        let (user_payout, caller_fee, vault_transfer) = settle_close(
            e,
            self.collateral,
            pnl,
            fee,
            take_rate,
        );
        CloseCalc { price, pnl, fee, user_payout, caller_fee, vault_transfer }
    }
}

/// A close hands out exactly the collateral: what owner, keeper and vault
/// receive adds up to it. The vault pays only on a winning trade, and then
/// no more than the owner's gain over the collateral.
pub proof fn lemma_close_conserves_collateral(collateral: int, pnl: int, fee: int, take_rate: int)
    requires
        collateral >= 0,
    ensures
        user_payout_of(collateral, pnl, fee, take_rate) + caller_fee_of(
            collateral,
            pnl,
            fee,
            take_rate,
        ) + vault_transfer_of(collateral, pnl, fee, take_rate) == collateral,
        user_payout_of(collateral, pnl, fee, take_rate) >= 0,
        caller_fee_of(collateral, pnl, fee, take_rate) >= 0,
        user_payout_of(collateral, pnl, fee, take_rate) <= collateral ==> vault_transfer_of(
            collateral,
            pnl,
            fee,
            take_rate,
        ) >= 0,
        user_payout_of(collateral, pnl, fee, take_rate) > collateral ==> vault_transfer_of(
            collateral,
            pnl,
            fee,
            take_rate,
        ) == collateral - user_payout_of(collateral, pnl, fee, take_rate),
{
}

} // verus!
