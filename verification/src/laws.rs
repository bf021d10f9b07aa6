use crate::constants::SCALAR_7;
use crate::execute::{keeper_action, keeper_action_ok};
use crate::fixed_point::floor_div;
use crate::market::Market;
use crate::position::{caller_fee_of, user_payout_of, vault_transfer_of};
use crate::requests::ExecuteRequestType;
use crate::types::{AssetId, Position, PositionStatus, TradingConfig};
use crate::actions::{request_action, request_action_ok};
use crate::execute::{close_action_ok, held_fees};
use crate::batch::{
    apply_request, apply_requests, outcome_of, request_ok, requests_ok, resolve, BatchContext,
    BatchState,
};
use crate::execute::refund_of;
use crate::trading::position_lookup;
use crate::lookup::{has_key, lemma_slot_of, slot_of};
use crate::requests::{Request, RequestType};
use crate::trading::{position_keys, positions_with};
use crate::user_actions::{
    is_market_order, modified, modify_error, modify_ok, open_error, open_fee_of, open_fees_ok,
    open_impact_of, opened, user_close, with_triggers, OpenRequest,
};
use crate::vault::{penalty_of, shares_for, tokens_for};
use vstd::prelude::*;

verus! {

/// Rounding down never gives more than the exact quotient: the rounded
/// quotient times the divisor is at most the dividend, and misses it by
/// less than the divisor.
pub proof fn lemma_floor_div_bounds(n: int, d: int)
    requires
        d > 0,
    ensures
        floor_div(n, d) * d <= n < floor_div(n, d) * d + d,
{
    vstd::arithmetic::div_mod::lemma_fundamental_div_mod(n, d);
    vstd::arithmetic::div_mod::lemma_mod_bound(n, d);
    let q = n / d;
    assert(floor_div(n, d) == q);
    assert(q * d == d * q) by (nonlinear_arith);
}

/// A deposit never lowers the share price: with `s` shares minted for `t`
/// tokens, tokens per share afterwards are at least what they were.
pub proof fn lemma_deposit_keeps_share_price(tokens: int, total_shares: int, total_tokens: int)
    requires
        tokens > 0,
        total_shares > 0,
        total_tokens > 0,
    ensures
        (total_tokens + tokens) * total_shares >= total_tokens * (total_shares + shares_for(
            tokens,
            total_shares,
            total_tokens,
        )),
{
    let s = shares_for(tokens, total_shares, total_tokens);
    lemma_floor_div_bounds(tokens * total_shares, total_tokens);
    assert(s * total_tokens <= tokens * total_shares);
    assert((total_tokens + tokens) * total_shares >= total_tokens * (total_shares + s))
        by (nonlinear_arith)
        requires
            s * total_tokens <= tokens * total_shares,
    ;
}

/// A withdrawal never lowers the share price for those who stay: with
/// `shares` redeemed for their rounded-down worth, tokens per share
/// afterwards are at least what they were.
pub proof fn lemma_withdraw_keeps_share_price(shares: int, total_shares: int, total_tokens: int)
    requires
        total_shares > 0,
    ensures
        (total_tokens - tokens_for(shares, total_shares, total_tokens)) * total_shares
            >= total_tokens * (total_shares - shares),
{
    let t = tokens_for(shares, total_shares, total_tokens);
    lemma_floor_div_bounds(shares * total_tokens, total_shares);
    assert(t * total_shares <= shares * total_tokens);
    assert((total_tokens - t) * total_shares >= total_tokens * (total_shares - shares))
        by (nonlinear_arith)
        requires
            t * total_shares <= shares * total_tokens,
    ;
}

/// The penalty of an emergency withdrawal at its two ends: right after
/// queueing, with the whole lock ahead, it is the full rate on the tokens;
/// from the unlock time on it is nothing.
pub proof fn lemma_penalty_boundaries(
    tokens: int,
    max_rate: int,
    unlock_time: u64,
    now: u64,
    lock_time: u64,
)
    requires
        lock_time > 0,
    ensures
        unlock_time - now == lock_time ==> penalty_of(tokens, max_rate, unlock_time, now, lock_time)
            == floor_div(tokens * max_rate, SCALAR_7 as int),
        now >= unlock_time ==> penalty_of(tokens, max_rate, unlock_time, now, lock_time) == 0,
{
    if unlock_time - now == lock_time {
        vstd::arithmetic::div_mod::lemma_div_multiples_vanish(max_rate, lock_time as int);
        assert(max_rate * (lock_time as int) == (lock_time as int) * max_rate)
            by (nonlinear_arith);
    }
}

/// What may be stored of a position: collateral and notional size are not
/// negative, and an open position has a positive entry price.
pub open spec fn persistable(position: Position) -> bool {
    &&& position.collateral >= 0
    &&& position.notional_size >= 0
    &&& position.status == PositionStatus::Open ==> position.entry_price > 0
}

/// A keeper's action on a storable position leaves it storable.
pub proof fn lemma_keeper_action_persistable(
    config: TradingConfig,
    kind: ExecuteRequestType,
    position: Position,
    market: Market,
    price: i128,
)
    requires
        persistable(position),
    ensures
        persistable(keeper_action(config, kind, position, market, price).position),
{
}

/// An accepted order gives a storable position.
pub proof fn lemma_opened_persistable(
    config: TradingConfig,
    status: u32,
    market: Market,
    held: nat,
    vault_assets: int,
    price: i128,
    id: u32,
    now: u64,
    req: OpenRequest,
)
    requires
        open_error(config, status, market, held, vault_assets, price as int, req) is None,
    ensures
        persistable(opened(market, price, id, now, req).position),
{
}

/// A user's close, an accepted change of collateral and a change of
/// triggers each leave a storable position storable.
pub proof fn lemma_user_actions_persistable(
    config: TradingConfig,
    status: u32,
    position: Position,
    market: Market,
    price: i128,
    new_collateral: i128,
    take_profit: i128,
    stop_loss: i128,
)
    requires
        persistable(position),
    ensures
        user_close(config, status, position, market, price) is Ok ==> persistable(
            user_close(config, status, position, market, price)->Ok_0.outcome.position,
        ),
        modify_error(status, position, market, price as int, new_collateral as int) is None
            ==> persistable(modified(position, market, new_collateral).position),
        with_triggers(status, position, price as int, take_profit, stop_loss) is Ok
            ==> persistable(
            with_triggers(status, position, price as int, take_profit, stop_loss)->Ok_0,
        ),
{
}

/// Opening a market order and closing it again at the same price, with no
/// time passed and nothing else changed, costs the user twice the opening
/// charges, base fee plus price impact, and all of it goes to the vault and
/// to whoever submitted the close; with a keeper's share of zero all of it
/// goes to the vault. On the lighter side the base fee is zero. This holds
/// where the charges are covered by the collateral.
pub proof fn lemma_round_trip(
    market: Market,
    price: i128,
    id: u32,
    now: u64,
    req: OpenRequest,
    take_rate: int,
)
    requires
        is_market_order(req),
        req.collateral >= 0,
        market.config.price_impact_scalar > 0,
        market.config.base_fee >= 0,
        open_fees_ok(market, req),
        0 <= open_fee_of(market, req) + open_impact_of(market, req) <= req.collateral,
    ensures
        ({
            let o = opened(market, price, id, now, req);
            let charges = open_fee_of(market, req) + open_impact_of(market, req);
            let fee = o.position.fee(o.market);
            let pnl = o.position.pnl(price as int);
            let c = req.collateral as int;
            &&& pnl == 0
            &&& o.position.accrued_interest(o.market) == 0
            &&& fee == charges
            &&& o.user_charge - user_payout_of(c, pnl, fee, take_rate) == 2 * charges
            &&& o.vault_deposit + vault_transfer_of(c, pnl, fee, take_rate) + caller_fee_of(
                c,
                pnl,
                fee,
                take_rate,
            ) == 2 * charges
            &&& take_rate == 0 ==> o.vault_deposit + vault_transfer_of(c, pnl, fee, take_rate) == 2
                * charges
        }),
{
    let o = opened(market, price, id, now, req);
    assert(o.position.index_difference(o.market) == 0);
    assert(o.position.notional_size * o.position.index_difference(o.market) == 0)
        by (nonlinear_arith)
        requires
            o.position.index_difference(o.market) == 0,
    ;
    assert(0int / 1_000_000_000_000_000_000int == 0);
}

/// What a position adds to one side's totals of one market: its notional
/// size or its collateral while it is open on that side, else nothing.
pub open spec fn open_amount(
    position: Position,
    asset: AssetId,
    is_long: bool,
    of_notional: bool,
) -> int {
    if position.status == PositionStatus::Open && position.asset == asset && position.is_long
        == is_long {
        if of_notional {
            position.notional_size as int
        } else {
            position.collateral as int
        }
    } else {
        0
    }
}

/// The sum of `open_amount` over `positions`.
pub open spec fn total_open(
    positions: Seq<Position>,
    asset: AssetId,
    is_long: bool,
    of_notional: bool,
) -> int
    decreases positions.len(),
{
    if positions.len() == 0 {
        0
    } else {
        total_open(positions.drop_last(), asset, is_long, of_notional) + open_amount(
            positions.last(),
            asset,
            is_long,
            of_notional,
        )
    }
}

/// The market's totals are the sums over the open positions: collateral
/// and notional size, on the long and on the short side.
pub open spec fn totals_match(market: Market, positions: Seq<Position>) -> bool {
    &&& market.side_collateral(true) == total_open(positions, market.asset, true, false)
    &&& market.side_collateral(false) == total_open(positions, market.asset, false, false)
    &&& market.side_notional(true) == total_open(positions, market.asset, true, true)
    &&& market.side_notional(false) == total_open(positions, market.asset, false, true)
}

/// Replacing one position changes the sum by the difference of what the
/// two add.
pub proof fn lemma_total_open_update(
    positions: Seq<Position>,
    i: int,
    position: Position,
    asset: AssetId,
    is_long: bool,
    of_notional: bool,
)
    requires
        0 <= i < positions.len(),
    ensures
        total_open(positions.update(i, position), asset, is_long, of_notional) == total_open(
            positions,
            asset,
            is_long,
            of_notional,
        ) - open_amount(positions[i], asset, is_long, of_notional) + open_amount(
            position,
            asset,
            is_long,
            of_notional,
        ),
    decreases positions.len(),
{
    let updated = positions.update(i, position);
    if i == positions.len() - 1 {
        assert(updated.drop_last() == positions.drop_last());
    } else {
        assert(updated.drop_last() == positions.drop_last().update(i, position));
        lemma_total_open_update(positions.drop_last(), i, position, asset, is_long, of_notional);
    }
}

/// Bringing a market's interest forward leaves its totals in step with
/// the open positions.
pub proof fn lemma_refresh_keeps_totals(market: Market, now: u64, positions: Seq<Position>)
    requires
        totals_match(market, positions),
    ensures
        totals_match(market.refreshed(now), positions),
{
}

/// A keeper's action keeps the market's totals in step with the open
/// positions: where they were the sums before, they are the sums once the
/// position and the market are put back.
pub proof fn lemma_keeper_action_keeps_totals(
    config: TradingConfig,
    kind: ExecuteRequestType,
    positions: Seq<Position>,
    i: int,
    market: Market,
    price: i128,
)
    requires
        0 <= i < positions.len(),
        positions[i].asset == market.asset,
        totals_match(market, positions),
        keeper_action_ok(config, kind, positions[i], market, price as int),
    ensures
        totals_match(
            keeper_action(config, kind, positions[i], market, price).market,
            positions.update(i, keeper_action(config, kind, positions[i], market, price).position),
        ),
{
    let outcome = keeper_action(config, kind, positions[i], market, price);
    lemma_keeper_totals_follow(config, kind, positions[i], market, price);
    lemma_totals_follow(positions, i, market, outcome.position, outcome.market);
}

/// An accepted order keeps the market's totals in step with the open
/// positions, the new position counted in.
pub proof fn lemma_open_keeps_totals(
    positions: Seq<Position>,
    market: Market,
    price: i128,
    id: u32,
    now: u64,
    req: OpenRequest,
)
    requires
        req.asset == market.asset,
        totals_match(market, positions),
        open_fees_ok(market, req),
    ensures
        totals_match(
            opened(market, price, id, now, req).market,
            positions.push(opened(market, price, id, now, req).position),
        ),
{
    let o = opened(market, price, id, now, req);
    assert(positions.push(o.position).drop_last() == positions);
}

/// A user's close and an accepted change of collateral keep the market's
/// totals in step with the open positions.
pub proof fn lemma_user_actions_keep_totals(
    config: TradingConfig,
    status: u32,
    positions: Seq<Position>,
    i: int,
    market: Market,
    price: i128,
    new_collateral: i128,
)
    requires
        0 <= i < positions.len(),
        positions[i].asset == market.asset,
        totals_match(market, positions),
    ensures
        user_close(config, status, positions[i], market, price) is Ok && (positions[i].status
            == PositionStatus::Open ==> close_action_ok(config, positions[i], market, price as int))
            ==> totals_match(
            user_close(config, status, positions[i], market, price)->Ok_0.outcome.market,
            positions.update(
                i,
                user_close(config, status, positions[i], market, price)->Ok_0.outcome.position,
            ),
        ),
        modify_error(status, positions[i], market, price as int, new_collateral as int) is None
            && modify_ok(positions[i], market, price as int, new_collateral as int)
            ==> totals_match(
            modified(positions[i], market, new_collateral).market,
            positions.update(i, modified(positions[i], market, new_collateral).position),
        ),
{
    if user_close(config, status, positions[i], market, price) is Ok {
        let p = user_close(config, status, positions[i], market, price)->Ok_0.outcome.position;
        lemma_total_open_update(positions, i, p, market.asset, true, false);
        lemma_total_open_update(positions, i, p, market.asset, false, false);
        lemma_total_open_update(positions, i, p, market.asset, true, true);
        lemma_total_open_update(positions, i, p, market.asset, false, true);
    }
    let m = modified(positions[i], market, new_collateral).position;
    lemma_total_open_update(positions, i, m, market.asset, true, false);
    lemma_total_open_update(positions, i, m, market.asset, false, false);
    lemma_total_open_update(positions, i, m, market.asset, true, true);
    lemma_total_open_update(positions, i, m, market.asset, false, true);
}

/// The market's totals have moved by exactly what the position adds to
/// them now, less what it added before.
pub open spec fn totals_follow(
    before: Position,
    market: Market,
    after: Position,
    changed: Market,
) -> bool {
    &&& changed.asset == market.asset
    &&& forall|is_long: bool|
        #![trigger changed.side_collateral(is_long)]
        changed.side_collateral(is_long) - market.side_collateral(is_long) == open_amount(
            after,
            market.asset,
            is_long,
            false,
        ) - open_amount(before, market.asset, is_long, false)
    &&& forall|is_long: bool|
        #![trigger changed.side_notional(is_long)]
        changed.side_notional(is_long) - market.side_notional(is_long) == open_amount(
            after,
            market.asset,
            is_long,
            true,
        ) - open_amount(before, market.asset, is_long, true)
}

/// Where the totals follow the one position that changed, they stay the
/// sums over all open positions.
pub proof fn lemma_totals_follow(
    positions: Seq<Position>,
    i: int,
    market: Market,
    after: Position,
    changed: Market,
)
    requires
        0 <= i < positions.len(),
        totals_match(market, positions),
        totals_follow(positions[i], market, after, changed),
    ensures
        totals_match(changed, positions.update(i, after)),
{
    lemma_total_open_update(positions, i, after, market.asset, true, false);
    lemma_total_open_update(positions, i, after, market.asset, false, false);
    lemma_total_open_update(positions, i, after, market.asset, true, true);
    lemma_total_open_update(positions, i, after, market.asset, false, true);
    assert(changed.side_collateral(true) - market.side_collateral(true) == open_amount(
        after,
        market.asset,
        true,
        false,
    ) - open_amount(positions[i], market.asset, true, false));
    assert(changed.side_collateral(false) - market.side_collateral(false) == open_amount(
        after,
        market.asset,
        false,
        false,
    ) - open_amount(positions[i], market.asset, false, false));
    assert(changed.side_notional(true) - market.side_notional(true) == open_amount(
        after,
        market.asset,
        true,
        true,
    ) - open_amount(positions[i], market.asset, true, true));
    assert(changed.side_notional(false) - market.side_notional(false) == open_amount(
        after,
        market.asset,
        false,
        true,
    ) - open_amount(positions[i], market.asset, false, true));
}

/// A keeper's action moves the market's totals by what it changes of its
/// position.
pub proof fn lemma_keeper_totals_follow(
    config: TradingConfig,
    kind: ExecuteRequestType,
    position: Position,
    market: Market,
    price: i128,
)
    requires
        position.asset == market.asset,
        keeper_action_ok(config, kind, position, market, price as int),
    ensures
        totals_follow(
            position,
            market,
            keeper_action(config, kind, position, market, price).position,
            keeper_action(config, kind, position, market, price).market,
        ),
{
}

/// A request of any kind moves the market's totals by what it changes of
/// its position.
pub proof fn lemma_request_totals_follow(
    config: TradingConfig,
    req: Request,
    position: Position,
    market: Market,
    price: i128,
)
    requires
        position.asset == market.asset,
        request_action_ok(config, req, position, market, price as int),
    ensures
        totals_follow(
            position,
            market,
            request_action(config, req, position, market, price).position,
            request_action(config, req, position, market, price).market,
        ),
{
    match req.action {
        RequestType::Fill => {
            lemma_keeper_totals_follow(config, ExecuteRequestType::Fill, position, market, price);
        },
        RequestType::StopLoss => {
            lemma_keeper_totals_follow(
                config,
                ExecuteRequestType::StopLoss,
                position,
                market,
                price,
            );
        },
        RequestType::TakeProfit => {
            lemma_keeper_totals_follow(
                config,
                ExecuteRequestType::TakeProfit,
                position,
                market,
                price,
            );
        },
        RequestType::Liquidation => {
            lemma_keeper_totals_follow(
                config,
                ExecuteRequestType::Liquidate,
                position,
                market,
                price,
            );
        },
        _ => {},
    }
}

/// A request of any kind keeps the market's totals in step with the open
/// positions.
pub proof fn lemma_request_keeps_totals(
    config: TradingConfig,
    req: Request,
    positions: Seq<Position>,
    i: int,
    market: Market,
    price: i128,
)
    requires
        0 <= i < positions.len(),
        positions[i].asset == market.asset,
        totals_match(market, positions),
        request_action_ok(config, req, positions[i], market, price as int),
    ensures
        totals_match(
            request_action(config, req, positions[i], market, price).market,
            positions.update(i, request_action(config, req, positions[i], market, price).position),
        ),
{
    let outcome = request_action(config, req, positions[i], market, price);
    lemma_request_totals_follow(config, req, positions[i], market, price);
    lemma_totals_follow(positions, i, market, outcome.position, outcome.market);
}

/// A request of any kind on a storable position leaves it storable.
pub proof fn lemma_request_persistable(
    config: TradingConfig,
    req: Request,
    position: Position,
    market: Market,
    price: i128,
)
    requires
        persistable(position),
        request_action_ok(config, req, position, market, price as int),
    ensures
        persistable(request_action(config, req, position, market, price).position),
{
}

/// What the engine holds for a position: collateral and the fees kept for
/// it while it is pending, the collateral while it is open, nothing once it
/// is closed.
pub open spec fn held_for(position: Position) -> int {
    match position.status {
        PositionStatus::Pending => position.collateral + held_fees(position),
        PositionStatus::Open => position.collateral as int,
        PositionStatus::Closed => 0,
    }
}

/// An accepted order leaves with the engine exactly what the engine holds
/// for the new position: of what the user pays in, a market order's fees go
/// on to the vault and its collateral stays; a limit order's collateral and
/// fees all stay, and nothing goes to the vault.
pub proof fn lemma_open_settles_holdings(
    market: Market,
    price: i128,
    id: u32,
    now: u64,
    req: OpenRequest,
)
    requires
        open_fees_ok(market, req),
    ensures
        opened(market, price, id, now, req).user_charge - opened(
            market,
            price,
            id,
            now,
            req,
        ).vault_deposit == held_for(opened(market, price, id, now, req).position),
        !is_market_order(req) ==> opened(market, price, id, now, req).vault_deposit == 0
            && opened(market, price, id, now, req).market == market && opened(
            market,
            price,
            id,
            now,
            req,
        ).user_charge == req.collateral + open_fee_of(market, req) + open_impact_of(market, req),
{
}

/// A request of any kind pays out exactly what the engine stops holding
/// for its position: what owner, keeper and vault are owed, taken together,
/// is what was held for the position before less what is held for it
/// after. A fill pays out the fees kept for the order and leaves the
/// collateral; a cancel pays back collateral and fees; a close or a
/// liquidation hands out the collateral; a change of collateral moves the
/// difference; a request that fails or sets a trigger moves nothing.
pub proof fn lemma_request_settles_holdings(
    config: TradingConfig,
    req: Request,
    position: Position,
    market: Market,
    price: i128,
)
    requires
        position.collateral >= 0,
        request_action_ok(config, req, position, market, price as int),
    ensures
        request_action(config, req, position, market, price).user_payout + request_action(
            config,
            req,
            position,
            market,
            price,
        ).caller_fee + request_action(config, req, position, market, price).vault_transfer
            == held_for(position) - held_for(
            request_action(config, req, position, market, price).position,
        ),
{
    match req.action {
        RequestType::Fill => {
            lemma_keeper_settles_holdings(config, ExecuteRequestType::Fill, position, market, price);
        },
        RequestType::StopLoss => {
            lemma_keeper_settles_holdings(
                config,
                ExecuteRequestType::StopLoss,
                position,
                market,
                price,
            );
        },
        RequestType::TakeProfit => {
            lemma_keeper_settles_holdings(
                config,
                ExecuteRequestType::TakeProfit,
                position,
                market,
                price,
            );
        },
        RequestType::Liquidation => {
            lemma_keeper_settles_holdings(
                config,
                ExecuteRequestType::Liquidate,
                position,
                market,
                price,
            );
        },
        _ => {},
    }
}

/// A keeper's action pays out exactly what the engine stops holding for
/// its position.
pub proof fn lemma_keeper_settles_holdings(
    config: TradingConfig,
    kind: ExecuteRequestType,
    position: Position,
    market: Market,
    price: i128,
)
    requires
        position.collateral >= 0,
        keeper_action_ok(config, kind, position, market, price as int),
    ensures
        keeper_action(config, kind, position, market, price).user_payout + keeper_action(
            config,
            kind,
            position,
            market,
            price,
        ).caller_fee + keeper_action(config, kind, position, market, price).vault_transfer
            == held_for(position) - held_for(
            keeper_action(config, kind, position, market, price).position,
        ),
{
}

/// Every position of the list may be stored.
pub open spec fn all_persistable(positions: Seq<Position>) -> bool {
    forall|i: int| 0 <= i < positions.len() ==> persistable(#[trigger] positions[i])
}

proof fn lemma_positions_with_persistable(positions: Seq<Position>, position: Position)
    requires
        all_persistable(positions),
        persistable(position),
    ensures
        all_persistable(positions_with(positions, position)),
{
    if has_key(position_keys(positions), position.id as int) {
        lemma_slot_of(position_keys(positions), position.id as int);
    }
}

/// One request of a batch leaves every cached position storable.
pub proof fn lemma_request_keeps_cache_persistable(
    ctx: BatchContext,
    st: BatchState,
    req: Request,
)
    requires
        all_persistable(st.positions),
        request_ok(ctx, st, req),
    ensures
        all_persistable(apply_request(ctx, st, req).positions),
{
    let keys = position_keys(st.positions);
    if has_key(keys, req.position as int) {
        lemma_slot_of(keys, req.position as int);
        let position = st.positions[slot_of(keys, req.position as int)];
        assert(persistable(position));
        if req.action is Cancel {
            if position.status == PositionStatus::Pending {
                lemma_positions_with_persistable(
                    st.positions,
                    crate::execute::cancelled_position(position),
                );
            }
        } else {
            match crate::batch::resolve(ctx, st, req) {
                Err(_) => {},
                Ok(found) => {
                    let market = found.1.refreshed(ctx.now);
                    lemma_request_persistable(ctx.config, req, position, market, found.2);
                    let outcome = request_action(ctx.config, req, position, market, found.2);
                    if outcome.code == 0 {
                        lemma_positions_with_persistable(st.positions, outcome.position);
                    }
                },
            }
        }
    }
}

/// A batch leaves every cached position storable: collateral and notional
/// size not negative, and a positive entry price once open.
pub proof fn lemma_batch_keeps_cache_persistable(
    ctx: BatchContext,
    st: BatchState,
    reqs: Seq<Request>,
)
    requires
        all_persistable(st.positions),
        requests_ok(ctx, st, reqs),
    ensures
        all_persistable(apply_requests(ctx, st, reqs).positions),
    decreases reqs.len(),
{
    if reqs.len() > 0 {
        lemma_request_keeps_cache_persistable(ctx, st, reqs[0]);
        lemma_batch_keeps_cache_persistable(ctx, apply_request(ctx, st, reqs[0]), reqs.skip(1));
    }
}

/// What the engine holds for all the positions of a list.
pub open spec fn total_held(positions: Seq<Position>) -> int
    decreases positions.len(),
{
    if positions.len() == 0 {
        0
    } else {
        total_held(positions.drop_last()) + held_for(positions.last())
    }
}

proof fn lemma_total_held_update(positions: Seq<Position>, i: int, position: Position)
    requires
        0 <= i < positions.len(),
    ensures
        total_held(positions.update(i, position)) == total_held(positions) - held_for(
            positions[i],
        ) + held_for(position),
    decreases positions.len(),
{
    let updated = positions.update(i, position);
    if i == positions.len() - 1 {
        assert(updated.drop_last() == positions.drop_last());
    } else {
        assert(updated.drop_last() == positions.drop_last().update(i, position));
        lemma_total_held_update(positions.drop_last(), i, position);
    }
}

/// What one request of a batch calls for in payments, to owner, keeper
/// and vault taken together; nothing where it fails.
pub open spec fn paid_by(ctx: BatchContext, st: BatchState, req: Request) -> int {
    if req.action is Cancel {
        match position_lookup(st.positions, req.position) {
            None => 0,
            Some(position) => if position.status == PositionStatus::Pending {
                refund_of(position)
            } else {
                0
            },
        }
    } else {
        match resolve(ctx, st, req) {
            Err(_) => 0,
            Ok(found) => {
                let outcome = outcome_of(ctx, req, found);
                if outcome.code == 0 {
                    outcome.user_payout + outcome.caller_fee + outcome.vault_transfer
                } else {
                    0
                }
            },
        }
    }
}

/// What a batch calls for in payments, all requests taken together.
pub open spec fn paid_out(ctx: BatchContext, st: BatchState, reqs: Seq<Request>) -> int
    decreases reqs.len(),
{
    if reqs.len() == 0 {
        0
    } else {
        paid_by(ctx, st, reqs[0]) + paid_out(ctx, apply_request(ctx, st, reqs[0]), reqs.skip(1))
    }
}

/// One request of a batch pays out exactly what the engine stops holding
/// for the cached positions.
pub proof fn lemma_request_pays_what_it_releases(ctx: BatchContext, st: BatchState, req: Request)
    requires
        all_persistable(st.positions),
        request_ok(ctx, st, req),
    ensures
        paid_by(ctx, st, req) == total_held(st.positions) - total_held(
            apply_request(ctx, st, req).positions,
        ),
{
    let keys = position_keys(st.positions);
    if has_key(keys, req.position as int) {
        lemma_slot_of(keys, req.position as int);
        let slot = slot_of(keys, req.position as int);
        let position = st.positions[slot];
        assert(position.id == req.position);
        assert(persistable(position));
        if req.action is Cancel {
            if position.status == PositionStatus::Pending {
                lemma_total_held_update(
                    st.positions,
                    slot,
                    crate::execute::cancelled_position(position),
                );
            }
        } else {
            match resolve(ctx, st, req) {
                Err(_) => {},
                Ok(found) => {
                    let market = found.1.refreshed(ctx.now);
                    let outcome = request_action(ctx.config, req, position, market, found.2);
                    crate::actions::lemma_request_keeps_keys(
                        ctx.config,
                        req,
                        position,
                        market,
                        found.2,
                    );
                    lemma_request_settles_holdings(ctx.config, req, position, market, found.2);
                    if outcome.code == 0 {
                        lemma_total_held_update(st.positions, slot, outcome.position);
                    }
                },
            }
        }
    }
}

/// A batch pays out exactly what the engine stops holding for the cached
/// positions: after it, what is left with the engine is again what it
/// holds for them, collateral and kept fees of the pending ones and
/// collateral of the open ones.
pub proof fn lemma_batch_pays_what_it_releases(
    ctx: BatchContext,
    st: BatchState,
    reqs: Seq<Request>,
)
    requires
        all_persistable(st.positions),
        requests_ok(ctx, st, reqs),
    ensures
        paid_out(ctx, st, reqs) == total_held(st.positions) - total_held(
            apply_requests(ctx, st, reqs).positions,
        ),
    decreases reqs.len(),
{
    if reqs.len() > 0 {
        lemma_request_pays_what_it_releases(ctx, st, reqs[0]);
        lemma_request_keeps_cache_persistable(ctx, st, reqs[0]);
        lemma_batch_pays_what_it_releases(ctx, apply_request(ctx, st, reqs[0]), reqs.skip(1));
    }
}

} // verus!
