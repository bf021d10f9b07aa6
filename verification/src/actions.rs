use crate::constants::STATUS_ACTIVE;
use crate::errors::TradingError;
use crate::execute::{
    apply_keeper_action, cancelled_position, close_action_ok, close_outcome, handle_close,
    keeper_action, keeper_action_ok, refund_of, refund_ok, rejected, ActionOutcome,
};
use crate::fixed_point::fits_i128;
use crate::market::Market;
use crate::requests::{ExecuteRequest, ExecuteRequestType, Request, RequestType};
use crate::types::{Position, PositionStatus, TradingConfig};
use crate::user_actions::{
    execute_modify_collateral, execute_set_triggers, modified, modify_error, modify_ok,
    settled_collateral, with_triggers,
};
use soroban_sdk::Env;
use vstd::prelude::*;

verus! {

impl ExecuteRequest {
    /// The keeper's request in the general form, without data.
    pub open spec fn as_request(self) -> Request {
        Request {
            action: match self.request_type {
                ExecuteRequestType::Fill => RequestType::Fill,
                ExecuteRequestType::StopLoss => RequestType::StopLoss,
                ExecuteRequestType::TakeProfit => RequestType::TakeProfit,
                ExecuteRequestType::Liquidate => RequestType::Liquidation,
            },
            position: self.position_id,
            data: None,
        }
    }

    /// Writes the keeper's request in the general form.
    pub fn to_request(&self) -> (r: Request)
        ensures
            r == self.as_request(),
    {
        Request {
            action: match self.request_type {
                ExecuteRequestType::Fill => RequestType::Fill,
                ExecuteRequestType::StopLoss => RequestType::StopLoss,
                ExecuteRequestType::TakeProfit => RequestType::TakeProfit,
                ExecuteRequestType::Liquidate => RequestType::Liquidation,
            },
            position: self.position_id,
            data: None,
        }
    }
}

/// The error that the position's status gives for an action, if any: a
/// fill and a cancel need a pending position, the others an open one.
pub open spec fn status_error(action: RequestType, status: PositionStatus) -> Option<
    TradingError,
> {
    match action {
        RequestType::Fill | RequestType::Cancel => if status == PositionStatus::Pending {
            None
        } else {
            Some(TradingError::PositionNotPending)
        },
        _ => if status == PositionStatus::Open {
            None
        } else {
            Some(TradingError::ActionNotAllowedForStatus)
        },
    }
}

/// Checks the position's status against the action.
pub fn check_status(action: RequestType, status: PositionStatus) -> (r: Option<TradingError>)
    ensures
        r == status_error(action, status),
{
    match action {
        RequestType::Fill | RequestType::Cancel => {
            if status == PositionStatus::Pending {
                None
            } else {
                Some(TradingError::PositionNotPending)
            }
        },
        _ => {
            if status == PositionStatus::Open {
                None
            } else {
                Some(TradingError::ActionNotAllowedForStatus)
            }
        },
    }
}

/// The collateral that a deposit or a withdrawal of `amount` asks for:
/// the settled collateral plus or less the amount.
pub open spec fn target_collateral(
    position: Position,
    market: Market,
    amount: int,
    deposit: bool,
) -> int {
    if deposit {
        settled_collateral(position, market) + amount
    } else {
        settled_collateral(position, market) - amount
    }
}

/// What a deposit or a withdrawal of collateral does, as part of a batch.
/// The amount has to be given and positive, else the request is a
/// `BadRequest`; from there on it is a change of collateral to the target.
pub open spec fn collateral_outcome(
    position: Position,
    market: Market,
    price: i128,
    data: Option<i128>,
    deposit: bool,
) -> ActionOutcome {
    match data {
        None => rejected(TradingError::BadRequest, position, market),
        Some(amount) => if amount <= 0 {
            rejected(TradingError::BadRequest, position, market)
        } else {
            let target = target_collateral(position, market, amount as int, deposit);
            match modify_error(STATUS_ACTIVE, position, market, price as int, target) {
                Some(error) => rejected(error, position, market),
                None => {
                    let m = modified(position, market, target as i128);
                    ActionOutcome {
                        code: 0,
                        position: m.position,
                        market: m.market,
                        user_payout: m.user_transfer,
                        caller_fee: 0,
                        vault_transfer: m.vault_transfer,
                    }
                },
            }
        },
    }
}

/// The deposit or withdrawal can be computed in 128 bits.
pub open spec fn collateral_ok(
    position: Position,
    market: Market,
    price: int,
    data: Option<i128>,
    deposit: bool,
) -> bool {
    match data {
        None => true,
        Some(amount) => amount > 0 && position.status == PositionStatus::Open ==> {
            &&& position.interest_ok(market)
            &&& fits_i128(settled_collateral(position, market))
            &&& fits_i128(target_collateral(position, market, amount as int, deposit))
            &&& target_collateral(position, market, amount as int, deposit) > 0 ==> modify_ok(
                position,
                market,
                price,
                target_collateral(position, market, amount as int, deposit),
            )
        },
    }
}

/// Adds to or takes from the collateral of an open position.
pub fn apply_update_collateral(
    e: &Env,
    position: &Position,
    market: &Market,
    price: i128,
    now: u64,
    data: Option<i128>,
    deposit: bool,
) -> (r: ActionOutcome)
    requires
        market.fresh_at(now),
        collateral_ok(*position, *market, price as int, data, deposit),
    ensures
        r == collateral_outcome(*position, *market, price, data, deposit),
{
    let amount = match data {
        None => {
            return reject(TradingError::BadRequest, position, market);
        },
        Some(amount) => amount,
    };
    if amount <= 0 {
        return reject(TradingError::BadRequest, position, market);
    }
    if position.status != PositionStatus::Open {
        return reject(TradingError::PositionNotOpen, position, market);
    }
    let interest = position.calculate_accrued_interest(e, market);
    let settled = position.collateral - interest;
    let target = if deposit {
        settled + amount
    } else {
        settled - amount
    };
    match execute_modify_collateral(e, STATUS_ACTIVE, position, market, price, now, target) {
        Err(error) => reject(error, position, market),
        Ok(m) => ActionOutcome {
            code: 0,
            position: m.position,
            market: m.market,
            user_payout: m.user_transfer,
            caller_fee: 0,
            vault_transfer: m.vault_transfer,
        },
    }
}

fn reject(error: TradingError, position: &Position, market: &Market) -> (r: ActionOutcome)
    ensures
        r == rejected(error, *position, *market),
{
    ActionOutcome {
        code: error.code(),
        position: *position,
        market: *market,
        user_payout: 0,
        caller_fee: 0,
        vault_transfer: 0,
    }
}

/// What setting one trigger does, as part of a batch. The price has to be
/// given, else the request is a `BadRequest`; the other trigger stays as
/// it is.
pub open spec fn trigger_outcome(
    position: Position,
    market: Market,
    price: i128,
    data: Option<i128>,
    take_profit: bool,
) -> ActionOutcome {
    match data {
        None => rejected(TradingError::BadRequest, position, market),
        Some(level) => match (if take_profit {
            with_triggers(STATUS_ACTIVE, position, price as int, level, -1i128)
        } else {
            with_triggers(STATUS_ACTIVE, position, price as int, -1i128, level)
        }) {
            Err(error) => rejected(error, position, market),
            Ok(changed) => ActionOutcome {
                code: 0,
                position: changed,
                market,
                user_payout: 0,
                caller_fee: 0,
                vault_transfer: 0,
            },
        },
    }
}

/// Sets or clears one trigger of an open position.
pub fn apply_set_trigger(
    position: &Position,
    market: &Market,
    price: i128,
    data: Option<i128>,
    take_profit: bool,
) -> (r: ActionOutcome)
    ensures
        r == trigger_outcome(*position, *market, price, data, take_profit),
{
    let level = match data {
        None => {
            return reject(TradingError::BadRequest, position, market);
        },
        Some(level) => level,
    };
    let changed = if take_profit {
        execute_set_triggers(STATUS_ACTIVE, position, price, level, -1)
    } else {
        execute_set_triggers(STATUS_ACTIVE, position, price, -1, level)
    };
    match changed {
        Err(error) => reject(error, position, market),
        Ok(changed) => ActionOutcome {
            code: 0,
            position: changed,
            market: *market,
            user_payout: 0,
            caller_fee: 0,
            vault_transfer: 0,
        },
    }
}

/// What cancelling a pending order does, as part of a batch: the order is
/// closed, and its collateral and the fees kept for it are owed to its
/// owner.
pub open spec fn cancel_outcome(position: Position, market: Market) -> ActionOutcome {
    if position.status == PositionStatus::Pending {
        ActionOutcome {
            code: 0,
            position: cancelled_position(position),
            market,
            user_payout: refund_of(position) as i128,
            caller_fee: 0,
            vault_transfer: 0,
        }
    } else {
        rejected(TradingError::PositionNotPending, position, market)
    }
}

/// Cancels a pending order.
pub fn apply_cancel(position: &Position, market: &Market) -> (r: ActionOutcome)
    requires
        position.status == PositionStatus::Pending ==> refund_ok(*position),
    ensures
        r == cancel_outcome(*position, *market),
{
    if position.status != PositionStatus::Pending {
        return reject(TradingError::PositionNotPending, position, market);
    }
    let mut closed = *position;
    closed.status = PositionStatus::Closed;
    closed.held_base_fee = 0;
    closed.held_price_impact = 0;
    let held = position.held_base_fee + position.held_price_impact;
    ActionOutcome {
        code: 0,
        position: closed,
        market: *market,
        user_payout: position.collateral + held,
        caller_fee: 0,
        vault_transfer: 0,
    }
}

/// What a request does to a position and its refreshed market at `price`.
pub open spec fn request_action(
    config: TradingConfig,
    req: Request,
    position: Position,
    market: Market,
    price: i128,
) -> ActionOutcome {
    match req.action {
        RequestType::Fill => keeper_action(
            config,
            ExecuteRequestType::Fill,
            position,
            market,
            price,
        ),
        RequestType::StopLoss => keeper_action(
            config,
            ExecuteRequestType::StopLoss,
            position,
            market,
            price,
        ),
        RequestType::TakeProfit => keeper_action(
            config,
            ExecuteRequestType::TakeProfit,
            position,
            market,
            price,
        ),
        RequestType::Liquidation => keeper_action(
            config,
            ExecuteRequestType::Liquidate,
            position,
            market,
            price,
        ),
        RequestType::Close => if position.status == PositionStatus::Open {
            close_outcome(config, position, market, price)
        } else {
            rejected(TradingError::ActionNotAllowedForStatus, position, market)
        },
        RequestType::Cancel => cancel_outcome(position, market),
        RequestType::DepositCollateral => collateral_outcome(
            position,
            market,
            price,
            req.data,
            true,
        ),
        RequestType::WithdrawCollateral => collateral_outcome(
            position,
            market,
            price,
            req.data,
            false,
        ),
        RequestType::SetTakeProfit => trigger_outcome(position, market, price, req.data, true),
        RequestType::SetStopLoss => trigger_outcome(position, market, price, req.data, false),
    }
}

/// The request can be computed in 128 bits.
pub open spec fn request_action_ok(
    config: TradingConfig,
    req: Request,
    position: Position,
    market: Market,
    price: int,
) -> bool {
    match req.action {
        RequestType::Fill => keeper_action_ok(
            config,
            ExecuteRequestType::Fill,
            position,
            market,
            price,
        ),
        RequestType::StopLoss => keeper_action_ok(
            config,
            ExecuteRequestType::StopLoss,
            position,
            market,
            price,
        ),
        RequestType::TakeProfit => keeper_action_ok(
            config,
            ExecuteRequestType::TakeProfit,
            position,
            market,
            price,
        ),
        RequestType::Liquidation => keeper_action_ok(
            config,
            ExecuteRequestType::Liquidate,
            position,
            market,
            price,
        ),
        RequestType::Close => position.status == PositionStatus::Open ==> close_action_ok(
            config,
            position,
            market,
            price,
        ),
        RequestType::DepositCollateral => collateral_ok(position, market, price, req.data, true),
        RequestType::WithdrawCollateral => collateral_ok(
            position,
            market,
            price,
            req.data,
            false,
        ),
        RequestType::Cancel => position.status == PositionStatus::Pending ==> refund_ok(position),
        _ => true,
    }
}

/// Carries out one request on a position and its refreshed market.
pub fn apply_request_action(
    e: &Env,
    config: &TradingConfig,
    req: &Request,
    position: &Position,
    market: &Market,
    price: i128,
    now: u64,
) -> (r: ActionOutcome)
    requires
        market.fresh_at(now),
        request_action_ok(*config, *req, *position, *market, price as int),
    ensures
        r == request_action(*config, *req, *position, *market, price),
{
    match req.action {
        RequestType::Fill => apply_keeper_action(
            e,
            config,
            ExecuteRequestType::Fill,
            position,
            market,
            price,
            now,
        ),
        RequestType::StopLoss => apply_keeper_action(
            e,
            config,
            ExecuteRequestType::StopLoss,
            position,
            market,
            price,
            now,
        ),
        RequestType::TakeProfit => apply_keeper_action(
            e,
            config,
            ExecuteRequestType::TakeProfit,
            position,
            market,
            price,
            now,
        ),
        RequestType::Liquidation => apply_keeper_action(
            e,
            config,
            ExecuteRequestType::Liquidate,
            position,
            market,
            price,
            now,
        ),
        RequestType::Close => {
            if position.status == PositionStatus::Open {
                handle_close(e, config, position, market, price, now)
            } else {
                reject(TradingError::ActionNotAllowedForStatus, position, market)
            }
        },
        RequestType::Cancel => apply_cancel(position, market),
        RequestType::DepositCollateral => apply_update_collateral(
            e,
            position,
            market,
            price,
            now,
            req.data,
            true,
        ),
        RequestType::WithdrawCollateral => apply_update_collateral(
            e,
            position,
            market,
            price,
            now,
            req.data,
            false,
        ),
        RequestType::SetTakeProfit => apply_set_trigger(position, market, price, req.data, true),
        RequestType::SetStopLoss => apply_set_trigger(position, market, price, req.data, false),
    }
}

/// A request leaves the position its id and the market its asset.
pub proof fn lemma_request_keeps_keys(
    config: TradingConfig,
    req: Request,
    position: Position,
    market: Market,
    price: i128,
)
    ensures
        request_action(config, req, position, market, price).position.id == position.id,
        request_action(config, req, position, market, price).market.asset == market.asset,
{
}

/// A request that fails changes neither the position nor the market and
/// calls for no payment.
pub proof fn lemma_failed_request_changes_nothing(
    config: TradingConfig,
    req: Request,
    position: Position,
    market: Market,
    price: i128,
)
    ensures
        request_action(config, req, position, market, price).code != 0 ==> request_action(
            config,
            req,
            position,
            market,
            price,
        ) == (ActionOutcome {
            code: request_action(config, req, position, market, price).code,
            position,
            market,
            user_payout: 0,
            caller_fee: 0,
            vault_transfer: 0,
        }),
{
}

} // verus!
