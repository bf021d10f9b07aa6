use crate::batch::actions_allowed;
use crate::constants::{SCALAR_7, STATUS_ACTIVE, STATUS_ON_ICE};
use crate::errors::TradingError;
use crate::execute::{
    cancelled_position, close_action_ok, close_outcome, handle_close, refund_of, refund_ok,
    ActionOutcome,
};
use crate::fixed_point::{fits_i128, fixed_mul_floor, floor_div, mul_ceil_ok, mul_floor_ok};
use crate::market::Market;
use crate::position::{
    base_fee_of, calculate_base_fee, calculate_price_impact_fee, price_impact_of,
    price_impact_ok, side_dominant,
};
use crate::storage::bump_position_id;
use crate::types::{AccountId, AssetId, Position, PositionStatus, TradingConfig};
use soroban_sdk::Env;
use vstd::prelude::*;

verus! {

/// What a user asks for when opening a position. An `entry_price` of zero
/// is a market order, any other a limit order.
#[derive(Clone, Copy, Debug, PartialEq, Eq, Structural)]
pub struct OpenRequest {
    pub user: AccountId,
    pub asset: AssetId,
    pub collateral: i128,
    pub notional_size: i128,
    pub is_long: bool,
    pub entry_price: i128,
    pub take_profit: i128,
    pub stop_loss: i128,
}

/// What opening a position did.
#[derive(Clone, Copy, Debug, PartialEq, Eq, Structural)]
pub struct OpenOutcome {
    pub position: Position,
    pub market: Market,
    /// The base fee charged; zero on the lighter side.
    pub open_fee: i128,
    pub price_impact: i128,
    /// What the user pays in: collateral, base fee and price impact.
    pub user_charge: i128,
    /// What goes on to the vault at once: the fees of a market order,
    /// nothing for a limit order, whose fees are held until it is filled.
    pub vault_deposit: i128,
}

/// Whether the order is a market order.
pub open spec fn is_market_order(req: OpenRequest) -> bool {
    req.entry_price == 0
}

/// The market as the fee of the new position sees it: with the position
/// added to its side.
pub open spec fn market_with_order(market: Market, req: OpenRequest) -> Market {
    market.with_stats(req.collateral as int, req.notional_size as int, req.is_long)
}

/// The base fee of the order: charged where its side is dominant once the
/// order is counted in.
pub open spec fn open_fee_of(market: Market, req: OpenRequest) -> int {
    if side_dominant(market_with_order(market, req), req.is_long) {
        base_fee_of(req.notional_size as int, market.config.base_fee as int)
    } else {
        0
    }
}

/// The price-impact charge of the order.
pub open spec fn open_impact_of(market: Market, req: OpenRequest) -> int {
    price_impact_of(req.notional_size as int, market.config.price_impact_scalar as int)
}

/// Why the order is refused, if it is. The checks come in this order:
/// status, market enabled, signs, collateral bounds, position count,
/// utilization, a positive oracle price, entry price of a limit order.
pub open spec fn open_error(
    config: TradingConfig,
    status: u32,
    market: Market,
    held: nat,
    vault_assets: int,
    price: int,
    req: OpenRequest,
) -> Option<TradingError> {
    if status != STATUS_ACTIVE {
        Some(TradingError::ContractPaused)
    } else if !market.config.enabled {
        Some(TradingError::MarketDisabled)
    } else if req.collateral < 0 || req.notional_size < 0 {
        Some(TradingError::InvalidCollateral)
    } else if req.entry_price < 0 {
        Some(TradingError::InvalidEntryPrice)
    } else if !(market.config.min_collateral <= req.collateral <= market.config.max_collateral) {
        Some(TradingError::InvalidCollateral)
    } else if held >= config.max_positions {
        Some(TradingError::MaxPositionsReached)
    } else if market.over_utilization(
        vault_assets,
        config.max_utilization as int,
        req.notional_size as int,
    ) {
        Some(TradingError::UtilizationLimitExceeded)
    } else if price <= 0 {
        Some(TradingError::InvalidEntryPrice)
    } else if !is_market_order(req) && (if req.is_long {
        req.entry_price > price
    } else {
        req.entry_price < price
    }) {
        Some(TradingError::InvalidEntryPrice)
    } else {
        None
    }
}

/// Whether the order gets as far as the utilization test.
pub open spec fn reaches_utilization(
    config: TradingConfig,
    status: u32,
    market: Market,
    held: nat,
    req: OpenRequest,
) -> bool {
    &&& status == STATUS_ACTIVE
    &&& market.config.enabled
    &&& req.collateral >= 0
    &&& req.notional_size >= 0
    &&& req.entry_price >= 0
    &&& market.config.min_collateral <= req.collateral <= market.config.max_collateral
    &&& held < config.max_positions
}

/// The fees of the order can be computed in 128 bits.
pub open spec fn open_fees_ok(market: Market, req: OpenRequest) -> bool {
    &&& market.stats_ok(req.collateral as int, req.notional_size as int, req.is_long)
    &&& mul_ceil_ok(req.notional_size as int, market.config.base_fee as int, SCALAR_7 as int)
    &&& price_impact_ok(req.notional_size as int, market.config.price_impact_scalar as int)
    &&& fits_i128(open_fee_of(market, req) + open_impact_of(market, req))
    &&& fits_i128(req.collateral + open_fee_of(market, req) + open_impact_of(market, req))
}

/// The order can be computed in 128 bits, as far as it gets.
pub open spec fn open_ok(
    config: TradingConfig,
    status: u32,
    market: Market,
    held: nat,
    vault_assets: int,
    price: int,
    req: OpenRequest,
) -> bool {
    &&& reaches_utilization(config, status, market, held, req) ==> market.utilization_ok(
        vault_assets,
        config.max_utilization as int,
        req.notional_size as int,
    )
    &&& open_error(config, status, market, held, vault_assets, price, req) is None
        ==> open_fees_ok(market, req)
}

/// What an accepted order does. A market order opens at the oracle price
/// and joins the market's totals; a limit order waits at its entry price
/// and leaves the market as it is. Either way the position records the
/// side's present interest index, and the user pays collateral, base fee
/// and price impact.
pub open spec fn opened(
    market: Market,
    price: i128,
    id: u32,
    now: u64,
    req: OpenRequest,
) -> OpenOutcome {
    let fee = open_fee_of(market, req);
    let impact = open_impact_of(market, req);
    OpenOutcome {
        position: Position {
            id,
            user: req.user,
            status: if is_market_order(req) {
                PositionStatus::Open
            } else {
                PositionStatus::Pending
            },
            asset: req.asset,
            is_long: req.is_long,
            stop_loss: req.stop_loss,
            take_profit: req.take_profit,
            entry_price: if is_market_order(req) {
                price
            } else {
                req.entry_price
            },
            collateral: req.collateral,
            notional_size: req.notional_size,
            interest_index: market.side_index(req.is_long) as i128,
            created_at: now,
            held_base_fee: if is_market_order(req) {
                0
            } else {
                fee as i128
            },
            held_price_impact: if is_market_order(req) {
                0
            } else {
                impact as i128
            },
        },
        market: if is_market_order(req) {
            market_with_order(market, req)
        } else {
            market
        },
        open_fee: fee as i128,
        price_impact: impact as i128,
        user_charge: (req.collateral + fee + impact) as i128,
        vault_deposit: if is_market_order(req) {
            (fee + impact) as i128
        } else {
            0
        },
    }
}

/// Opens a position for `req.user` on the refreshed `market` at the oracle
/// `price`. `held` is the number of positions that the user holds,
/// `counter` the id that was given out last: the new position gets the
/// next one, which the caller keeps as the new counter.
pub fn execute_create_position(
    e: &Env,
    config: &TradingConfig,
    status: u32,
    market: &Market,
    held: usize,
    vault_assets: i128,
    price: i128,
    counter: u32,
    now: u64,
    req: &OpenRequest,
) -> (r: Result<OpenOutcome, TradingError>)
    requires
        market.fresh_at(now),
        counter < u32::MAX,
        open_ok(
            *config,
            status,
            *market,
            held as nat,
            vault_assets as int,
            price as int,
            *req,
        ),
    ensures
        r == (match open_error(
            *config,
            status,
            *market,
            held as nat,
            vault_assets as int,
            price as int,
            *req,
        ) {
            Some(error) => Err::<OpenOutcome, TradingError>(error),
            None => Ok(opened(*market, price, (counter + 1) as u32, now, *req)),
        }),
{
    if status != STATUS_ACTIVE {
        return Err(TradingError::ContractPaused);
    }
    if !market.config.enabled {
        return Err(TradingError::MarketDisabled);
    }
    if req.collateral < 0 || req.notional_size < 0 {
        return Err(TradingError::InvalidCollateral);
    }
    if req.entry_price < 0 {
        return Err(TradingError::InvalidEntryPrice);
    }
    if !market.is_position_valid(req.collateral) {
        return Err(TradingError::InvalidCollateral);
    }
    if held >= config.max_positions as usize {
        return Err(TradingError::MaxPositionsReached);
    }
    if market.exceeds_utilization(e, vault_assets, config.max_utilization, req.notional_size) {
        return Err(TradingError::UtilizationLimitExceeded);
    }
    if price <= 0 {
        return Err(TradingError::InvalidEntryPrice);
    }
    let market_order = req.entry_price == 0;
    if !market_order {
        let misplaced = if req.is_long {
            req.entry_price > price
        } else {
            req.entry_price < price
        };
        if misplaced {
            return Err(TradingError::InvalidEntryPrice);
        }
    }
    let mut counted = *market;
    counted.update_stats(req.collateral, req.notional_size, req.is_long, now);
    let dominant = if req.is_long {
        counted.data.long_notional_size >= counted.data.short_notional_size
    } else {
        counted.data.short_notional_size >= counted.data.long_notional_size
    };
    let open_fee = if dominant {
        calculate_base_fee(e, req.notional_size, market.config.base_fee)
    } else {
        0
    };
    let price_impact = calculate_price_impact_fee(
        e,
        req.notional_size,
        market.config.price_impact_scalar,
    );
    let position = Position {
        id: bump_position_id(counter),
        user: req.user,
        status: if market_order {
            PositionStatus::Open
        } else {
            PositionStatus::Pending
        },
        asset: req.asset,
        is_long: req.is_long,
        stop_loss: req.stop_loss,
        take_profit: req.take_profit,
        entry_price: if market_order {
            price
        } else {
            req.entry_price
        },
        collateral: req.collateral,
        notional_size: req.notional_size,
        interest_index: if req.is_long {
            market.data.long_interest_index
        } else {
            market.data.short_interest_index
        },
        created_at: now,
        held_base_fee: if market_order {
            0
        } else {
            open_fee
        },
        held_price_impact: if market_order {
            0
        } else {
            price_impact
        },
    };
    let fees = open_fee + price_impact;
    Ok(
        OpenOutcome {
            position,
            market: if market_order {
                counted
            } else {
                *market
            },
            open_fee,
            price_impact,
            user_charge: req.collateral + fees,
            vault_deposit: if market_order {
                fees
            } else {
                0
            },
        },
    )
}

/// What closing did, with the profit and the fee that it settled.
#[derive(Clone, Copy, Debug, PartialEq, Eq, Structural)]
pub struct CloseOutcome {
    pub outcome: ActionOutcome,
    pub pnl: i128,
    pub fee: i128,
}

/// What cancelling a pending order does: the order is closed and its
/// collateral goes back to its owner together with the base fee and the
/// price impact kept for it, with no profit and no fee.
pub open spec fn cancelled(position: Position, market: Market) -> CloseOutcome {
    CloseOutcome {
        outcome: ActionOutcome {
            code: 0,
            position: cancelled_position(position),
            market,
            user_payout: refund_of(position) as i128,
            caller_fee: 0,
            vault_transfer: 0,
        },
        pnl: 0,
        fee: 0,
    }
}

/// What a user's close request does: it is refused while the engine is
/// frozen or being set up and for a closed position; a pending order is
/// cancelled; an open position is closed at `price`.
pub open spec fn user_close(
    config: TradingConfig,
    status: u32,
    position: Position,
    market: Market,
    price: i128,
) -> Result<CloseOutcome, TradingError> {
    if !actions_allowed(status) {
        Err(TradingError::ContractPaused)
    } else {
        match position.status {
            PositionStatus::Pending => Ok(cancelled(position, market)),
            PositionStatus::Closed => Err(TradingError::PositionAlreadyClosed),
            PositionStatus::Open => Ok(
                CloseOutcome {
                    outcome: close_outcome(config, position, market, price),
                    pnl: position.pnl(price as int) as i128,
                    fee: position.fee(market) as i128,
                },
            ),
        }
    }
}

/// Closes the user's position against the refreshed `market` at the oracle
/// `price`. For a close that the user asks for, `config.caller_take_rate`
/// gives the share that goes to whoever submitted it.
pub fn execute_close_position(
    e: &Env,
    config: &TradingConfig,
    status: u32,
    position: &Position,
    market: &Market,
    price: i128,
    now: u64,
) -> (r: Result<CloseOutcome, TradingError>)
    requires
        market.fresh_at(now),
        actions_allowed(status) && position.status == PositionStatus::Open ==> close_action_ok(
            *config,
            *position,
            *market,
            price as int,
        ),
        actions_allowed(status) && position.status == PositionStatus::Pending ==> refund_ok(
            *position,
        ),
    ensures
        r == user_close(*config, status, *position, *market, price),
{
    if status > STATUS_ON_ICE {
        return Err(TradingError::ContractPaused);
    }
    match position.status {
        PositionStatus::Pending => {
            let mut closed = *position;
            closed.status = PositionStatus::Closed;
            closed.held_base_fee = 0;
            closed.held_price_impact = 0;
            let held = position.held_base_fee + position.held_price_impact;
            Ok(
                CloseOutcome {
                    outcome: ActionOutcome {
                        code: 0,
                        position: closed,
                        market: *market,
                        user_payout: position.collateral + held,
                        caller_fee: 0,
                        vault_transfer: 0,
                    },
                    pnl: 0,
                    fee: 0,
                },
            )
        },
        PositionStatus::Closed => Err(TradingError::PositionAlreadyClosed),
        PositionStatus::Open => {
            let pnl = position.calculate_pnl(e, price);
            let fee = position.calculate_fee(e, market);
            let outcome = handle_close(e, config, position, market, price, now);
            Ok(CloseOutcome { outcome, pnl, fee })
        },
    }
}

/// What changing a position's collateral did.
#[derive(Clone, Copy, Debug, PartialEq, Eq, Structural)]
pub struct ModifyOutcome {
    pub position: Position,
    pub market: Market,
    /// Interest settled: positive when the position paid, negative when it
    /// was credited.
    pub interest_fee: i128,
    /// Owed to the owner; negative when the owner pays in.
    pub user_transfer: i128,
    /// Owed to the vault; negative when the vault pays.
    pub vault_transfer: i128,
}

/// The position's collateral once the accrued interest is settled.
pub open spec fn settled_collateral(position: Position, market: Market) -> int {
    position.collateral - position.accrued_interest(market)
}

/// The least equity that lets collateral be taken out.
pub open spec fn initial_margin(position: Position, market: Market) -> int {
    floor_div(position.notional_size * market.config.init_margin, SCALAR_7 as int)
}

/// Whether a change to `new_collateral` takes collateral out.
pub open spec fn is_withdrawal(position: Position, market: Market, new_collateral: int) -> bool {
    new_collateral < settled_collateral(position, market)
}

/// Why the change is refused, if it is.
pub open spec fn modify_error(
    status: u32,
    position: Position,
    market: Market,
    price: int,
    new_collateral: int,
) -> Option<TradingError> {
    if !actions_allowed(status) {
        Some(TradingError::ContractPaused)
    } else if position.status != PositionStatus::Open {
        Some(TradingError::PositionNotOpen)
    } else if new_collateral <= 0 {
        Some(TradingError::InvalidCollateral)
    } else if is_withdrawal(position, market, new_collateral) && new_collateral + position.pnl(
        price,
    ) < initial_margin(position, market) {
        Some(TradingError::WithdrawalBreaksMargin)
    } else {
        None
    }
}

/// The change can be computed in 128 bits.
pub open spec fn modify_ok(
    position: Position,
    market: Market,
    price: int,
    new_collateral: int,
) -> bool {
    &&& position.interest_ok(market)
    &&& fits_i128(settled_collateral(position, market))
    &&& fits_i128(new_collateral - settled_collateral(position, market))
    &&& fits_i128(settled_collateral(position, market) - new_collateral)
    &&& fits_i128(new_collateral - position.collateral)
    &&& market.stats_ok(new_collateral - position.collateral, 0, position.is_long)
    &&& is_withdrawal(position, market, new_collateral) ==> {
        &&& position.pnl_ok(price)
        &&& fits_i128(new_collateral + position.pnl(price))
        &&& mul_floor_ok(
            position.notional_size as int,
            market.config.init_margin as int,
            SCALAR_7 as int,
        )
    }
}

/// What an accepted change does: the accrued interest is settled with the
/// vault, the position takes the side's present index and the new
/// collateral, the market's totals follow, and the owner pays in or is paid
/// the difference to the settled collateral.
pub open spec fn modified(position: Position, market: Market, new_collateral: i128) -> ModifyOutcome {
    ModifyOutcome {
        position: Position {
            collateral: new_collateral,
            interest_index: market.side_index(position.is_long) as i128,
            ..position
        },
        market: market.with_stats(new_collateral - position.collateral, 0, position.is_long),
        interest_fee: position.accrued_interest(market) as i128,
        user_transfer: (settled_collateral(position, market) - new_collateral) as i128,
        vault_transfer: position.accrued_interest(market) as i128,
    }
}

/// Sets the collateral of an open position to `new_collateral`, against
/// the refreshed `market` at the oracle `price`.
pub fn execute_modify_collateral(
    e: &Env,
    status: u32,
    position: &Position,
    market: &Market,
    price: i128,
    now: u64,
    new_collateral: i128,
) -> (r: Result<ModifyOutcome, TradingError>)
    requires
        market.fresh_at(now),
        actions_allowed(status) && position.status == PositionStatus::Open && new_collateral > 0
            ==> modify_ok(*position, *market, price as int, new_collateral as int),
    ensures
        r == (match modify_error(status, *position, *market, price as int, new_collateral as int) {
            Some(error) => Err::<ModifyOutcome, TradingError>(error),
            None => Ok(modified(*position, *market, new_collateral)),
        }),
{
    if status > STATUS_ON_ICE {
        return Err(TradingError::ContractPaused);
    }
    if position.status != PositionStatus::Open {
        return Err(TradingError::PositionNotOpen);
    }
    if new_collateral <= 0 {
        return Err(TradingError::InvalidCollateral);
    }
    let interest = position.calculate_accrued_interest(e, market);
    let settled = position.collateral - interest;
    if new_collateral < settled {
        let pnl = position.calculate_pnl(e, price);
        let required = fixed_mul_floor(
            e,
            position.notional_size,
            market.config.init_margin,
            SCALAR_7,
        );
        if new_collateral + pnl < required {
            return Err(TradingError::WithdrawalBreaksMargin);
        }
    }
    let mut changed = *position;
    changed.collateral = new_collateral;
    changed.interest_index = if position.is_long {
        market.data.long_interest_index
    } else {
        market.data.short_interest_index
    };
    let mut updated = *market;
    updated.update_stats(new_collateral - position.collateral, 0, position.is_long, now);
    Ok(
        ModifyOutcome {
            position: changed,
            market: updated,
            interest_fee: interest,
            user_transfer: settled - new_collateral,
            vault_transfer: interest,
        },
    )
}

/// Whether `take_profit` is on the wrong side of `price` for the position.
pub open spec fn take_profit_misplaced(position: Position, price: int, take_profit: int) -> bool {
    take_profit > 0 && if position.is_long {
        take_profit <= price
    } else {
        take_profit >= price
    }
}

/// Whether `stop_loss` is on the wrong side of `price` for the position.
pub open spec fn stop_loss_misplaced(position: Position, price: int, stop_loss: int) -> bool {
    stop_loss > 0 && if position.is_long {
        stop_loss >= price
    } else {
        stop_loss <= price
    }
}

/// What a request to set both triggers does. Zero clears a trigger, a
/// positive value on the right side of the price sets it, a negative value
/// leaves it as it was.
pub open spec fn with_triggers(
    status: u32,
    position: Position,
    price: int,
    take_profit: i128,
    stop_loss: i128,
) -> Result<Position, TradingError> {
    if !actions_allowed(status) {
        Err(TradingError::ContractPaused)
    } else if position.status != PositionStatus::Open {
        Err(TradingError::PositionNotOpen)
    } else if take_profit_misplaced(position, price, take_profit as int) {
        Err(TradingError::InvalidTakeProfitPrice)
    } else if stop_loss_misplaced(position, price, stop_loss as int) {
        Err(TradingError::InvalidStopLossPrice)
    } else {
        Ok(
            Position {
                take_profit: if take_profit >= 0 {
                    take_profit
                } else {
                    position.take_profit
                },
                stop_loss: if stop_loss >= 0 {
                    stop_loss
                } else {
                    position.stop_loss
                },
                ..position
            },
        )
    }
}

/// Sets or clears the take-profit and stop-loss triggers of an open
/// position, given the oracle `price`.
pub fn execute_set_triggers(
    status: u32,
    position: &Position,
    price: i128,
    take_profit: i128,
    stop_loss: i128,
) -> (r: Result<Position, TradingError>)
    ensures
        r == with_triggers(status, *position, price as int, take_profit, stop_loss),
{
    if status > STATUS_ON_ICE {
        return Err(TradingError::ContractPaused);
    }
    if position.status != PositionStatus::Open {
        return Err(TradingError::PositionNotOpen);
    }
    let mut changed = *position;
    if take_profit > 0 {
        let misplaced = if position.is_long {
            take_profit <= price
        } else {
            take_profit >= price
        };
        if misplaced {
            return Err(TradingError::InvalidTakeProfitPrice);
        }
        changed.take_profit = take_profit;
    } else if take_profit == 0 {
        changed.take_profit = 0;
    }
    if stop_loss > 0 {
        let misplaced = if position.is_long {
            stop_loss >= price
        } else {
            stop_loss <= price
        };
        if misplaced {
            return Err(TradingError::InvalidStopLossPrice);
        }
        changed.stop_loss = stop_loss;
    } else if stop_loss == 0 {
        changed.stop_loss = 0;
    }
    Ok(changed)
}

} // verus!
