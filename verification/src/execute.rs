use crate::constants::SCALAR_7;
use crate::errors::TradingError;
use crate::fixed_point::{fits_i128, fixed_mul_floor, floor_div, mul_floor_ok};
use crate::market::Market;
use crate::position::raw_caller_fee;
use crate::requests::ExecuteRequestType;
use crate::types::{Position, PositionStatus, TradingConfig};
use soroban_sdk::Env;
use vstd::prelude::*;

verus! {

/// What one action did: its result code, the position and the market as
/// they are afterwards, and the payments it calls for. With a code other
/// than zero nothing has changed and nothing is paid.
#[derive(Clone, Copy, Debug, PartialEq, Eq, Structural)]
pub struct ActionOutcome {
    pub code: u32,
    pub position: Position,
    pub market: Market,
    /// Owed to the position's owner.
    pub user_payout: i128,
    /// Owed to the keeper.
    pub caller_fee: i128,
    /// Owed to the vault; negative when the vault pays.
    pub vault_transfer: i128,
}

/// The outcome of an action that failed with `error`.
pub open spec fn rejected(error: TradingError, position: Position, market: Market) -> ActionOutcome {
    ActionOutcome {
        code: error.spec_code(),
        position,
        market,
        user_payout: 0,
        caller_fee: 0,
        vault_transfer: 0,
    }
}

fn reject(error: TradingError, position: &Position, market: &Market) -> (r: ActionOutcome)
    ensures
        r == rejected(error, *position, *market),
{
    ActionOutcome {
        code: error.code(),
        position: *position,
        market: *market,
        user_payout: 0,
        caller_fee: 0,
        vault_transfer: 0,
    }
}

/// The keeper's share of `fee` at `take_rate`, rounded down and never
/// negative.
pub open spec fn caller_share(fee: int, take_rate: int) -> int {
    let share = floor_div(fee * take_rate, SCALAR_7 as int);
    if share > 0 {
        share
    } else {
        0
    }
}

/// Works out the keeper's share of `fee`.
pub fn calculate_caller_fee(e: &Env, config: &TradingConfig, fee: i128) -> (r: i128)
    requires
        mul_floor_ok(fee as int, config.caller_take_rate as int, SCALAR_7 as int),
    ensures
        r as int == caller_share(fee as int, config.caller_take_rate as int),
{
    let share = fixed_mul_floor(e, fee, config.caller_take_rate, SCALAR_7);
    if share > 0 {
        share
    } else {
        0
    }
}

/// The position with the given status.
pub open spec fn with_status(position: Position, status: PositionStatus) -> Position {
    Position { status, ..position }
}

/// Whether a pending order can be filled at `price`: the price is positive,
/// and a long is at or below its entry price, a short at or above.
pub open spec fn can_fill(position: Position, price: int) -> bool {
    price > 0 && if position.is_long {
        price <= position.entry_price
    } else {
        price >= position.entry_price
    }
}

/// What is kept for a pending order besides its collateral: the base fee
/// and the price impact that it paid in.
pub open spec fn held_fees(position: Position) -> int {
    position.held_base_fee + position.held_price_impact
}

/// What a pending order gets back when it is cancelled: its collateral and
/// the fees kept for it.
pub open spec fn refund_of(position: Position) -> int {
    position.collateral + held_fees(position)
}

/// The refund can be computed in 128 bits.
pub open spec fn refund_ok(position: Position) -> bool {
    fits_i128(held_fees(position)) && fits_i128(refund_of(position))
}

/// The position once nothing is kept for it any more.
pub open spec fn released_fees(position: Position, status: PositionStatus) -> Position {
    Position { status, held_base_fee: 0, held_price_impact: 0, ..position }
}

/// The position as a cancelled order: closed, with nothing kept for it.
pub open spec fn cancelled_position(position: Position) -> Position {
    released_fees(position, PositionStatus::Closed)
}

/// The keeper's share of a fill: its share of the base fee kept for the
/// order.
pub open spec fn fill_caller_fee(config: TradingConfig, position: Position) -> int {
    caller_share(position.held_base_fee as int, config.caller_take_rate as int)
}

/// The fill can be computed in 128 bits.
pub open spec fn fill_ok(
    config: TradingConfig,
    position: Position,
    market: Market,
    price: int,
) -> bool {
    can_fill(position, price) ==> {
        &&& market.stats_ok(
            position.collateral as int,
            position.notional_size as int,
            position.is_long,
        )
        &&& mul_floor_ok(
            position.held_base_fee as int,
            config.caller_take_rate as int,
            SCALAR_7 as int,
        )
        &&& fits_i128(held_fees(position))
        &&& fits_i128(held_fees(position) - fill_caller_fee(config, position))
    }
}

/// What filling a pending order at `price` does: the order opens at
/// `price`, its collateral and notional size join the market's totals, and
/// the fees kept for it since it was placed leave the engine, all of them:
/// the keeper gets its share of the base fee, the vault the rest. The
/// collateral stays.
pub open spec fn fill_outcome(
    config: TradingConfig,
    position: Position,
    market: Market,
    price: i128,
) -> ActionOutcome {
    if !can_fill(position, price as int) {
        rejected(TradingError::LimitOrderNotFillable, position, market)
    } else {
        let share = fill_caller_fee(config, position);
        ActionOutcome {
            code: 0,
            position: Position {
                entry_price: price,
                ..released_fees(position, PositionStatus::Open)
            },
            market: market.with_stats(
                position.collateral as int,
                position.notional_size as int,
                position.is_long,
            ),
            user_payout: 0,
            caller_fee: share as i128,
            vault_transfer: (held_fees(position) - share) as i128,
        }
    }
}

/// Fills a pending limit order.
pub fn apply_fill(
    e: &Env,
    config: &TradingConfig,
    position: &Position,
    market: &Market,
    price: i128,
    now: u64,
) -> (r: ActionOutcome)
    requires
        market.fresh_at(now),
        fill_ok(*config, *position, *market, price as int),
    ensures
        r == fill_outcome(*config, *position, *market, price),
{
    let fillable = price > 0 && if position.is_long {
        price <= position.entry_price
    } else {
        price >= position.entry_price
    };
    if !fillable {
        return reject(TradingError::LimitOrderNotFillable, position, market);
    }
    let mut filled = *position;
    filled.status = PositionStatus::Open;
    filled.entry_price = price;
    filled.held_base_fee = 0;
    filled.held_price_impact = 0;
    let mut updated = *market;
    updated.update_stats(position.collateral, position.notional_size, position.is_long, now);
    let held = position.held_base_fee + position.held_price_impact;
    let share = calculate_caller_fee(e, config, position.held_base_fee);
    ActionOutcome {
        code: 0,
        position: filled,
        market: updated,
        user_payout: 0,
        caller_fee: share,
        vault_transfer: held - share,
    }
}

/// The market can let go of the position's collateral and notional size.
pub open spec fn release_ok(position: Position, market: Market) -> bool {
    &&& fits_i128(-position.collateral)
    &&& fits_i128(-position.notional_size)
    &&& market.stats_ok(
        -(position.collateral as int),
        -(position.notional_size as int),
        position.is_long,
    )
}

/// The market without the position's collateral and notional size.
pub open spec fn released(position: Position, market: Market) -> Market {
    market.with_stats(
        -(position.collateral as int),
        -(position.notional_size as int),
        position.is_long,
    )
}

/// The close can be computed in 128 bits.
pub open spec fn close_action_ok(
    config: TradingConfig,
    position: Position,
    market: Market,
    price: int,
) -> bool {
    &&& position.close_ok(market, price, config.caller_take_rate as int)
    &&& release_ok(position, market)
}

/// What closing an open position at `price` does: the position is closed,
/// the market lets go of it, and owner, keeper and vault are paid as the
/// settlement says.
pub open spec fn close_outcome(
    config: TradingConfig,
    position: Position,
    market: Market,
    price: i128,
) -> ActionOutcome {
    let calc = position.close_calc(market, price, config.caller_take_rate as int);
    ActionOutcome {
        code: 0,
        position: with_status(position, PositionStatus::Closed),
        market: released(position, market),
        user_payout: calc.user_payout,
        caller_fee: calc.caller_fee,
        vault_transfer: calc.vault_transfer,
    }
}

/// Closes an open position at `price`.
pub fn handle_close(
    e: &Env,
    config: &TradingConfig,
    position: &Position,
    market: &Market,
    price: i128,
    now: u64,
) -> (r: ActionOutcome)
    requires
        market.fresh_at(now),
        close_action_ok(*config, *position, *market, price as int),
    ensures
        r == close_outcome(*config, *position, *market, price),
{
    let calc = position.calculate_close(e, market, price, config.caller_take_rate);
    let mut closed = *position;
    closed.status = PositionStatus::Closed;
    let mut updated = *market;
    updated.update_stats(-position.collateral, -position.notional_size, position.is_long, now);
    ActionOutcome {
        code: 0,
        position: closed,
        market: updated,
        user_payout: calc.user_payout,
        caller_fee: calc.caller_fee,
        vault_transfer: calc.vault_transfer,
    }
}

/// What a stop-loss request does: a close when the trigger is hit, else a
/// rejection.
pub open spec fn stop_loss_outcome(
    config: TradingConfig,
    position: Position,
    market: Market,
    price: i128,
) -> ActionOutcome {
    if position.stop_loss_hit(price as int) {
        close_outcome(config, position, market, price)
    } else {
        rejected(TradingError::StopLossNotTriggered, position, market)
    }
}

/// Closes an open position whose stop-loss is hit at `price`.
pub fn apply_stop_loss(
    e: &Env,
    config: &TradingConfig,
    position: &Position,
    market: &Market,
    price: i128,
    now: u64,
) -> (r: ActionOutcome)
    requires
        market.fresh_at(now),
        position.stop_loss_hit(price as int) ==> close_action_ok(
            *config,
            *position,
            *market,
            price as int,
        ),
    ensures
        r == stop_loss_outcome(*config, *position, *market, price),
{
    if !position.check_stop_loss(price) {
        return reject(TradingError::StopLossNotTriggered, position, market);
    }
    handle_close(e, config, position, market, price, now)
}

/// What a take-profit request does: a close when the trigger is hit, else
/// a rejection.
pub open spec fn take_profit_outcome(
    config: TradingConfig,
    position: Position,
    market: Market,
    price: i128,
) -> ActionOutcome {
    if position.take_profit_hit(price as int) {
        close_outcome(config, position, market, price)
    } else {
        rejected(TradingError::TakeProfitNotTriggered, position, market)
    }
}

/// Closes an open position whose take-profit is hit at `price`.
pub fn apply_take_profit(
    e: &Env,
    config: &TradingConfig,
    position: &Position,
    market: &Market,
    price: i128,
    now: u64,
) -> (r: ActionOutcome)
    requires
        market.fresh_at(now),
        position.take_profit_hit(price as int) ==> close_action_ok(
            *config,
            *position,
            *market,
            price as int,
        ),
    ensures
        r == take_profit_outcome(*config, *position, *market, price),
{
    if !position.check_take_profit(price) {
        return reject(TradingError::TakeProfitNotTriggered, position, market);
    }
    handle_close(e, config, position, market, price, now)
}

/// What the position is worth at `price`: collateral plus profit less fee.
pub open spec fn equity(position: Position, market: Market, price: int) -> int {
    position.collateral + position.pnl(price) - position.fee(market)
}

/// The least equity that keeps the position open.
pub open spec fn required_margin(position: Position, market: Market) -> int {
    floor_div(position.notional_size * market.config.maintenance_margin, SCALAR_7 as int)
}

/// Whether the position may be liquidated at `price`: its equity is
/// strictly below the required margin.
pub open spec fn liquidatable(position: Position, market: Market, price: int) -> bool {
    equity(position, market, price) < required_margin(position, market)
}

/// What the keeper earns on a liquidation: its share of the fee, capped by
/// the collateral.
pub open spec fn liquidation_caller_fee(
    config: TradingConfig,
    position: Position,
    market: Market,
) -> int {
    let raw = raw_caller_fee(position.fee(market), config.caller_take_rate as int);
    if raw < position.collateral {
        raw
    } else {
        position.collateral as int
    }
}

/// The liquidation can be computed in 128 bits.
pub open spec fn liquidation_ok(
    config: TradingConfig,
    position: Position,
    market: Market,
    price: int,
) -> bool {
    &&& position.pnl_ok(price)
    &&& position.fee_ok(market)
    &&& fits_i128(position.collateral + position.pnl(price))
    &&& fits_i128(equity(position, market, price))
    &&& mul_floor_ok(
        position.notional_size as int,
        market.config.maintenance_margin as int,
        SCALAR_7 as int,
    )
    &&& liquidatable(position, market, price) ==> {
        &&& mul_floor_ok(position.fee(market), config.caller_take_rate as int, SCALAR_7 as int)
        &&& fits_i128(raw_caller_fee(position.fee(market), config.caller_take_rate as int))
        &&& fits_i128(position.collateral - liquidation_caller_fee(config, position, market))
        &&& release_ok(position, market)
    }
}

/// What a liquidation request does. Where the position is liquidatable it
/// is closed, its owner gets nothing, the keeper gets its capped share and
/// the vault the rest of the collateral; else the request is rejected.
pub open spec fn liquidation_outcome(
    config: TradingConfig,
    position: Position,
    market: Market,
    price: i128,
) -> ActionOutcome {
    if !liquidatable(position, market, price as int) {
        rejected(TradingError::PositionNotLiquidatable, position, market)
    } else {
        let share = liquidation_caller_fee(config, position, market);
        ActionOutcome {
            code: 0,
            position: with_status(position, PositionStatus::Closed),
            market: released(position, market),
            user_payout: 0,
            caller_fee: share as i128,
            vault_transfer: (position.collateral - share) as i128,
        }
    }
}

/// Liquidates an open position whose equity has fallen below the
/// maintenance margin.
pub fn apply_liquidation(
    e: &Env,
    config: &TradingConfig,
    position: &Position,
    market: &Market,
    price: i128,
    now: u64,
) -> (r: ActionOutcome)
    requires
        market.fresh_at(now),
        liquidation_ok(*config, *position, *market, price as int),
    ensures
        r == liquidation_outcome(*config, *position, *market, price),
        (r.code == 0) == liquidatable(*position, *market, price as int),
{
    let pnl = position.calculate_pnl(e, price);
    let fee = position.calculate_fee(e, market);
    let value = position.collateral + pnl - fee;
    let required = fixed_mul_floor(
        e,
        position.notional_size,
        market.config.maintenance_margin,
        SCALAR_7,
    );
    if value >= required {
        return reject(TradingError::PositionNotLiquidatable, position, market);
    }
    let share = fixed_mul_floor(e, fee, config.caller_take_rate, SCALAR_7);
    let raw = if share >= 0 {
        share
    } else {
        -share
    };
    let caller_fee = if raw < position.collateral {
        raw
    } else {
        position.collateral
    };
    let mut closed = *position;
    closed.status = PositionStatus::Closed;
    let mut updated = *market;
    updated.update_stats(-position.collateral, -position.notional_size, position.is_long, now);
    ActionOutcome {
        code: 0,
        position: closed,
        market: updated,
        user_payout: 0,
        caller_fee,
        vault_transfer: position.collateral - caller_fee,
    }
}

/// The keeper action can be computed in 128 bits.
pub open spec fn keeper_action_ok(
    config: TradingConfig,
    kind: ExecuteRequestType,
    position: Position,
    market: Market,
    price: int,
) -> bool {
    match kind {
        ExecuteRequestType::Fill => position.status == PositionStatus::Pending ==> fill_ok(
            config,
            position,
            market,
            price,
        ),
        ExecuteRequestType::StopLoss => position.status == PositionStatus::Open
            && position.stop_loss_hit(price) ==> close_action_ok(config, position, market, price),
        ExecuteRequestType::TakeProfit => position.status == PositionStatus::Open
            && position.take_profit_hit(price) ==> close_action_ok(
            config,
            position,
            market,
            price,
        ),
        ExecuteRequestType::Liquidate => position.status == PositionStatus::Open
            ==> liquidation_ok(config, position, market, price),
    }
}

/// What a keeper's request does to a position and its market at `price`.
/// A fill needs a pending position, the other three an open one.
pub open spec fn keeper_action(
    config: TradingConfig,
    kind: ExecuteRequestType,
    position: Position,
    market: Market,
    price: i128,
) -> ActionOutcome {
    match kind {
        ExecuteRequestType::Fill => if position.status == PositionStatus::Pending {
            fill_outcome(config, position, market, price)
        } else {
            rejected(TradingError::PositionNotPending, position, market)
        },
        ExecuteRequestType::StopLoss => if position.status == PositionStatus::Open {
            stop_loss_outcome(config, position, market, price)
        } else {
            rejected(TradingError::ActionNotAllowedForStatus, position, market)
        },
        ExecuteRequestType::TakeProfit => if position.status == PositionStatus::Open {
            take_profit_outcome(config, position, market, price)
        } else {
            rejected(TradingError::ActionNotAllowedForStatus, position, market)
        },
        ExecuteRequestType::Liquidate => if position.status == PositionStatus::Open {
            liquidation_outcome(config, position, market, price)
        } else {
            rejected(TradingError::ActionNotAllowedForStatus, position, market)
        },
    }
}

/// Carries out one keeper request on a position and its refreshed market.
pub fn apply_keeper_action(
    e: &Env,
    config: &TradingConfig,
    kind: ExecuteRequestType,
    position: &Position,
    market: &Market,
    price: i128,
    now: u64,
) -> (r: ActionOutcome)
    requires
        market.fresh_at(now),
        keeper_action_ok(*config, kind, *position, *market, price as int),
    ensures
        r == keeper_action(*config, kind, *position, *market, price),
{
    match kind {
        ExecuteRequestType::Fill => {
            if position.status == PositionStatus::Pending {
                apply_fill(e, config, position, market, price, now)
            } else {
                reject(TradingError::PositionNotPending, position, market)
            }
        },
        ExecuteRequestType::StopLoss => {
            if position.status == PositionStatus::Open {
                apply_stop_loss(e, config, position, market, price, now)
            } else {
                reject(TradingError::ActionNotAllowedForStatus, position, market)
            }
        },
        ExecuteRequestType::TakeProfit => {
            if position.status == PositionStatus::Open {
                apply_take_profit(e, config, position, market, price, now)
            } else {
                reject(TradingError::ActionNotAllowedForStatus, position, market)
            }
        },
        ExecuteRequestType::Liquidate => {
            if position.status == PositionStatus::Open {
                apply_liquidation(e, config, position, market, price, now)
            } else {
                reject(TradingError::ActionNotAllowedForStatus, position, market)
            }
        },
    }
}

/// A keeper request that fails changes neither the position nor the
/// market and calls for no payment, so that trying it again later starts
/// from the same state.
pub proof fn lemma_failed_action_changes_nothing(
    config: TradingConfig,
    kind: ExecuteRequestType,
    position: Position,
    market: Market,
    price: i128,
)
    ensures
        keeper_action(config, kind, position, market, price).code != 0 ==> {
            &&& keeper_action(config, kind, position, market, price).position == position
            &&& keeper_action(config, kind, position, market, price).market == market
            &&& keeper_action(config, kind, position, market, price).user_payout == 0
            &&& keeper_action(config, kind, position, market, price).caller_fee == 0
            &&& keeper_action(config, kind, position, market, price).vault_transfer == 0
        },
{
}

/// A liquidation succeeds exactly when collateral plus profit less fee is
/// strictly below the notional size times the maintenance margin.
pub proof fn lemma_liquidation_threshold(
    config: TradingConfig,
    position: Position,
    market: Market,
    price: i128,
)
    ensures
        (liquidation_outcome(config, position, market, price).code == 0) == (position.collateral
            + position.pnl(price as int) - position.fee(market) < floor_div(
            position.notional_size * market.config.maintenance_margin,
            SCALAR_7 as int,
        )),
{
}

} // verus!
