use perp_engine::batch::{execute_submit, execute_trigger, process_requests};
use perp_engine::config::execute_set_market;
use perp_engine::constants::{SCALAR_18, SCALAR_7};
use perp_engine::market::Market;
use perp_engine::settlement::{settlement_plan, TransferStep};
use perp_engine::trading::{PriceData, Trading};
use perp_engine::user_actions::{
    execute_close_position, execute_create_position, execute_modify_collateral,
    execute_set_triggers, OpenRequest,
};
use perp_engine::{
    default_market, ExecuteRequest, ExecuteRequestType, Position, PositionStatus,
    QueuedMarketInit, Request, RequestType, TradingConfig, TradingError,
};
use soroban_sdk::Env;

const WEEK: u64 = 604_800;
const BTC: u32 = 0;
const ETH: u32 = 1;
const VAULT: u64 = 100;
const TOKEN: u64 = 101;
const KEEPER: u64 = 50;
const USER: u64 = 7;
const OTHER: u64 = 8;
const BTC_PRICE: i128 = 100_000 * SCALAR_7;
const VAULT_ASSETS: i128 = 100_000_000 * SCALAR_7;

fn config() -> TradingConfig {
    TradingConfig { oracle: 9, caller_take_rate: 100_000, max_positions: 10, max_utilization: 0 }
}

fn market(asset: u32, now: u64) -> Market {
    let queued = QueuedMarketInit { config: default_market(), unlock_time: 0 };
    execute_set_market(Some(queued), asset, now).unwrap()
}

fn order(user: u64, collateral: i128, notional_size: i128, is_long: bool, entry_price: i128) -> OpenRequest {
    OpenRequest {
        user,
        asset: BTC,
        collateral,
        notional_size,
        is_long,
        entry_price,
        take_profit: 0,
        stop_loss: 0,
    }
}

struct World {
    env: Env,
    trading: Trading,
    next_id: u32,
}

impl World {
    fn new() -> World {
        let env = Env::default();
        let mut trading = Trading::load(&env, config(), VAULT, TOKEN, KEEPER, 0);
        trading.preload_market(&market(BTC, 0));
        trading.preload_price(&PriceData { asset: BTC, price: BTC_PRICE, timestamp: 0 });
        World { env, trading, next_id: 0 }
    }

    fn set_price(&mut self, price: i128) {
        let reading = PriceData { asset: BTC, price, timestamp: self.trading.now };
        self.trading.preload_price(&reading);
    }

    fn jump(&mut self, seconds: u64) {
        self.trading.now += seconds;
        let price = self.trading.prices[0].price;
        self.set_price(price);
    }

    fn open(&mut self, req: OpenRequest) -> Result<(u32, i128, i128), TradingError> {
        let market = self.trading.load_market(&self.env, BTC).unwrap();
        let price = self.trading.load_price(BTC).unwrap();
        let outcome = execute_create_position(
            &self.env,
            &self.trading.config,
            0,
            &market,
            0,
            VAULT_ASSETS,
            price,
            self.next_id,
            self.trading.now,
            &req,
        )?;
        self.next_id = outcome.position.id;
        self.trading.cache_market(&outcome.market);
        self.trading.cache_position(&outcome.position);
        Ok((outcome.position.id, outcome.user_charge, outcome.vault_deposit))
    }

    fn position(&self, id: u32) -> Position {
        self.trading.load_position(id).unwrap()
    }

    fn market(&self) -> Market {
        self.trading.markets[0]
    }

    fn submit(&mut self, action: RequestType, position: u32, data: Option<i128>) -> (u32, perp_engine::transfers::SubmitResult) {
        let requests = vec![Request { action, position, data }];
        let result = process_requests(&self.env, &mut self.trading, &requests);
        (result.codes()[0], result)
    }
}

#[test]
fn test_open_market_position_long() {
    let mut w = World::new();
    let (id, charge, deposit) = w.open(order(USER, 1_000 * SCALAR_7, 2_000 * SCALAR_7, true, 0)).unwrap();
    let position = w.position(id);
    assert_eq!(position.user, USER);
    assert_eq!(position.collateral, 1_000 * SCALAR_7);
    assert_eq!(position.notional_size, 2_000 * SCALAR_7);
    assert!(position.is_long);
    assert_eq!(position.status, PositionStatus::Open);
    assert_eq!(position.entry_price, 100_000_0000000);
    assert_eq!(position.id, id);
    assert_eq!(position.interest_index, SCALAR_18);
    // base fee 0.05% of 2000 is 1, the price impact rounds up to the smallest unit
    assert_eq!(charge, 1_000 * SCALAR_7 + SCALAR_7 + 1);
    assert_eq!(deposit, SCALAR_7 + 1);
    let market = w.market();
    assert_eq!(market.data.long_collateral, 1_000 * SCALAR_7);
    assert_eq!(market.data.long_notional_size, 2_000 * SCALAR_7);
    assert_eq!(market.data.short_collateral, 0);
    assert_eq!(market.data.short_notional_size, 0);
}

#[test]
fn test_open_market_position_short() {
    let mut w = World::new();
    w.trading.preload_market(&market(ETH, 0));
    w.trading.preload_price(&PriceData { asset: ETH, price: 2000_0000000, timestamp: 0 });
    let eth_market = w.trading.load_market(&w.env, ETH).unwrap();
    let mut req = order(USER, 2_000 * SCALAR_7, 6_000 * SCALAR_7, false, 0);
    req.asset = ETH;
    let opened = execute_create_position(
        &w.env,
        &w.trading.config,
        0,
        &eth_market,
        0,
        VAULT_ASSETS,
        w.trading.load_price(ETH).unwrap(),
        0,
        0,
        &req,
    )
    .unwrap();
    w.trading.cache_market(&opened.market);
    w.trading.cache_position(&opened.position);
    let position = w.position(1);
    assert_eq!(position.user, USER);
    assert_eq!(position.collateral, 2_000 * SCALAR_7);
    assert_eq!(position.notional_size, 6_000 * SCALAR_7);
    assert_eq!(position.is_long, false);
    assert_eq!(position.status, PositionStatus::Open);
    assert_eq!(position.entry_price, 2000_0000000);
    assert_eq!(position.asset, ETH);
    assert_eq!((position.held_base_fee, position.held_price_impact), (0, 0));
    let market_data = w.trading.markets[1].data;
    assert_eq!(market_data.short_collateral, 2_000 * SCALAR_7);
    assert_eq!(market_data.short_notional_size, 6_000 * SCALAR_7);
    assert_eq!(market_data.long_collateral, 0);
    assert_eq!(market_data.long_notional_size, 0);
}

#[test]
fn test_open_limit_position_long() {
    let mut w = World::new();
    let entry_price = 99_000 * SCALAR_7;
    let (id, charge, deposit) =
        w.open(order(USER, 1_000 * SCALAR_7, 2_000 * SCALAR_7, true, entry_price)).unwrap();
    let position = w.position(id);
    assert_eq!(position.status, PositionStatus::Pending);
    assert_eq!(position.entry_price, entry_price);
    assert_eq!(position.user, USER);
    assert_eq!(position.collateral, 1_000 * SCALAR_7);
    assert!(position.is_long);
    assert_eq!(charge, 1_000 * SCALAR_7 + SCALAR_7 + 1);
    assert_eq!(deposit, 0);
    assert_eq!(position.held_base_fee, SCALAR_7);
    assert_eq!(position.held_price_impact, 1);
    let market = w.market();
    assert_eq!(market.data.long_collateral, 0);
    assert_eq!(market.data.long_notional_size, 0);
    assert_eq!(market.data.short_collateral, 0);
}

#[test]
fn test_open_limit_position_short() {
    let mut w = World::new();
    let entry_price = 101_000 * SCALAR_7;
    let (id, _, _) = w.open(order(USER, 500 * SCALAR_7, 1_000 * SCALAR_7, false, entry_price)).unwrap();
    let position = w.position(id);
    assert_eq!(position.status, PositionStatus::Pending);
    assert_eq!(position.entry_price, entry_price);
    assert_eq!(position.collateral, 500 * SCALAR_7);
    assert!(!position.is_long);
    assert_eq!(w.market().data.short_collateral, 0);
}

#[test]
fn limit_order_on_the_wrong_side_of_the_price_is_refused() {
    let mut w = World::new();
    assert_eq!(
        w.open(order(USER, 1_000 * SCALAR_7, 2_000 * SCALAR_7, true, 101_000 * SCALAR_7)),
        Err(TradingError::InvalidEntryPrice)
    );
    assert_eq!(
        w.open(order(USER, 1_000 * SCALAR_7, 2_000 * SCALAR_7, false, 99_000 * SCALAR_7)),
        Err(TradingError::InvalidEntryPrice)
    );
}

#[test]
fn test_fill_limit_order_long() {
    let mut w = World::new();
    let (id, _, _) =
        w.open(order(USER, 1_000 * SCALAR_7, 2_000 * SCALAR_7, true, 99_000 * SCALAR_7)).unwrap();
    assert_eq!(w.position(id).status, PositionStatus::Pending);
    w.set_price(99_000 * SCALAR_7);
    let (code, result) = w.submit(RequestType::Fill, id, None);
    assert_eq!(code, 0);
    let caller_fee = result.transfer_of(KEEPER);
    assert_eq!(caller_fee, 100_000);
    // base fee and price impact, held since the order was placed, leave in full
    assert_eq!(result.transfer_of(VAULT), SCALAR_7 + 1 - 100_000);
    assert_eq!(result.transfer_of(USER), 0);
    let position = w.position(id);
    assert_eq!(position.status, PositionStatus::Open);
    assert_eq!(position.entry_price, 99_000_0000000);
    assert_eq!(position.collateral, 1_000 * SCALAR_7);
    assert_eq!((position.held_base_fee, position.held_price_impact), (0, 0));
    let market = w.market();
    assert_eq!(market.data.long_collateral, 1_000 * SCALAR_7);
    assert_eq!(market.data.long_notional_size, 2_000 * SCALAR_7);
    assert_eq!(w.trading.changed_positions(), vec![id]);
    assert_eq!(w.trading.changed_markets(), vec![BTC]);
}

#[test]
fn test_fill_limit_order_short() {
    let mut w = World::new();
    let (id, _, _) =
        w.open(order(USER, 500 * SCALAR_7, 1_000 * SCALAR_7, false, 101_000 * SCALAR_7)).unwrap();
    w.set_price(102_000 * SCALAR_7);
    let (code, result) = w.submit(RequestType::Fill, id, None);
    assert_eq!(code, 0);
    assert!(result.transfer_of(KEEPER) >= 0);
    let position = w.position(id);
    assert_eq!(position.status, PositionStatus::Open);
    assert_eq!(position.entry_price, 102_000 * SCALAR_7);
    assert_eq!(w.market().data.short_collateral, 500 * SCALAR_7);
    assert_eq!(w.market().data.short_notional_size, 1_000 * SCALAR_7);
}

#[test]
fn test_fill_order_wrong_price_direction() {
    let mut w = World::new();
    let (id, _, _) =
        w.open(order(USER, 1_000 * SCALAR_7, 2_000 * SCALAR_7, true, 99_000 * SCALAR_7)).unwrap();
    w.set_price(99_500 * SCALAR_7);
    let before = w.position(id);
    let (code, result) = w.submit(RequestType::Fill, id, None);
    assert_eq!(code, TradingError::LimitOrderNotFillable.code());
    assert_eq!(w.position(id), before);
    assert_eq!(result.accounts().len(), 0);
    assert_eq!(w.market().data.long_collateral, 0);
}

#[test]
fn test_cancel_pending_position() {
    let mut w = World::new();
    let (id, _, _) =
        w.open(order(USER, 1_000 * SCALAR_7, 2_000 * SCALAR_7, true, 99_000 * SCALAR_7)).unwrap();
    let (code, result) = w.submit(RequestType::Cancel, id, None);
    assert_eq!(code, 0);
    assert_eq!(w.position(id).status, PositionStatus::Closed);
    // everything that the order locked comes back: collateral, base fee, price impact
    assert_eq!(result.transfer_of(USER), 1_000 * SCALAR_7 + SCALAR_7 + 1);
    assert_eq!(result.transfer_of(VAULT), 0);
    assert_eq!(result.transfer_of(KEEPER), 0);
    assert_eq!((w.position(id).held_base_fee, w.position(id).held_price_impact), (0, 0));
    assert_eq!(w.market().data.long_collateral, 0);
    let (code, _) = w.submit(RequestType::Cancel, id, None);
    assert_eq!(code, TradingError::PositionNotPending.code());
}

#[test]
fn cancel_needs_no_price() {
    let mut w = World::new();
    let (id, _, _) =
        w.open(order(USER, 1_000 * SCALAR_7, 2_000 * SCALAR_7, true, 99_000 * SCALAR_7)).unwrap();
    w.trading.now = 10_000;
    assert_eq!(w.trading.load_price(BTC), Err(TradingError::PriceStale));
    let (code, _) = w.submit(RequestType::Cancel, id, None);
    assert_eq!(code, 0);
}

#[test]
fn test_close_position_manual() {
    let mut w = World::new();
    let (id, charge, deposit) = w.open(order(USER, 1_000 * SCALAR_7, 2_000 * SCALAR_7, true, 0)).unwrap();
    let position = w.position(id);
    let market = w.trading.load_market(&w.env, BTC).unwrap();
    let closed =
        execute_close_position(&w.env, &w.trading.config, 0, &position, &market, BTC_PRICE, w.trading.now).unwrap();
    assert_eq!(closed.pnl, 0);
    assert_eq!(closed.fee, SCALAR_7 + 1);
    assert_eq!(closed.outcome.position.status, PositionStatus::Closed);
    assert_eq!(closed.outcome.market.data.long_collateral, 0);
    assert_eq!(closed.outcome.market.data.long_notional_size, 0);
    // the round trip costs the user the charges twice over
    let paid = charge - closed.outcome.user_payout;
    assert_eq!(paid, 2 * (SCALAR_7 + 1));
    assert_eq!(
        deposit + closed.outcome.vault_transfer + closed.outcome.caller_fee,
        2 * (SCALAR_7 + 1)
    );
    assert_eq!(
        execute_close_position(
            &w.env,
            &w.trading.config,
            1,
            &closed.outcome.position,
            &market,
            BTC_PRICE,
            w.trading.now
        ),
        Err(TradingError::PositionAlreadyClosed)
    );
    assert_eq!(
        execute_close_position(&w.env, &w.trading.config, 2, &position, &market, BTC_PRICE, w.trading.now),
        Err(TradingError::ContractPaused)
    );
}

#[test]
fn close_of_a_pending_order_refunds_all_that_it_locked() {
    let mut w = World::new();
    let (id, charge, _) =
        w.open(order(USER, 1_000 * SCALAR_7, 2_000 * SCALAR_7, true, 99_000 * SCALAR_7)).unwrap();
    let position = w.position(id);
    let market = w.market();
    let closed =
        execute_close_position(&w.env, &w.trading.config, 1, &position, &market, BTC_PRICE, w.trading.now).unwrap();
    assert_eq!((closed.pnl, closed.fee), (0, 0));
    assert_eq!(closed.outcome.user_payout, charge);
    assert_eq!(closed.outcome.user_payout, 1_000 * SCALAR_7 + SCALAR_7 + 1);
    assert_eq!((closed.outcome.caller_fee, closed.outcome.vault_transfer), (0, 0));
    assert_eq!(closed.outcome.position.status, PositionStatus::Closed);
    assert_eq!(closed.outcome.market, market);
}

#[test]
fn single_long_without_interest() {
    let mut w = World::new();
    w.trading.markets[0].config.base_fee = 0;
    w.trading.markets[0].config.base_hourly_rate = 0;
    w.trading.config.caller_take_rate = 0;
    let (id, charge, _) = w.open(order(USER, 10_000 * SCALAR_7, 20_000 * SCALAR_7, true, 0)).unwrap();
    let price_impact = 1;
    assert_eq!(charge, 10_000 * SCALAR_7 + price_impact);
    w.set_price(105_000 * SCALAR_7);
    let (code, result) = w.submit(RequestType::Close, id, None);
    assert_eq!(code, 0);
    let payout = result.transfer_of(USER);
    assert_eq!(payout - charge, 1_000 * SCALAR_7 - 2 * price_impact);
    assert_eq!(result.transfer_of(VAULT), -(1_000 * SCALAR_7 - price_impact));
}

#[test]
fn equal_long_and_short_over_a_week() {
    let mut w = World::new();
    let (long_id, _, long_deposit) =
        w.open(order(USER, 50_000 * SCALAR_7, 200_000 * SCALAR_7, true, 0)).unwrap();
    let (short_id, _, short_deposit) =
        w.open(order(OTHER, 50_000 * SCALAR_7, 200_000 * SCALAR_7, false, 0)).unwrap();
    let base_fee = 100 * SCALAR_7;
    let impact = 5;
    // both pay the base fee: each is level with or heavier than the other side when it opens
    assert_eq!(long_deposit, base_fee + impact);
    assert_eq!(short_deposit, base_fee + impact);
    w.jump(WEEK);
    w.set_price(90_000 * SCALAR_7);
    let requests = vec![
        Request { action: RequestType::Close, position: long_id, data: None },
        Request { action: RequestType::Close, position: short_id, data: None },
    ];
    let result = process_requests(&w.env, &mut w.trading, &requests);
    assert_eq!(result.codes(), vec![0, 0]);
    let interest = 3_359_999_999;
    let fee = base_fee + impact + interest;
    let keeper = fee / 100;
    assert_eq!(w.market().data.long_interest_index, 1_001_679_999_999_999_999);
    assert_eq!(w.market().data.short_interest_index, 1_001_679_999_999_999_999);
    assert_eq!(result.transfer_of(USER), 50_000 * SCALAR_7 - 20_000 * SCALAR_7 - fee);
    assert_eq!(result.transfer_of(OTHER), 50_000 * SCALAR_7 + 20_000 * SCALAR_7 - fee);
    assert_eq!(result.transfer_of(KEEPER), keeper);
    // profit and loss cancel out: the vault gains the fees, less the keeper's share
    assert_eq!(result.transfer_of(VAULT), 2 * fee - keeper);
    assert_eq!(
        result.transfer_of(USER) + result.transfer_of(OTHER) + result.transfer_of(KEEPER)
            + result.transfer_of(VAULT),
        100_000 * SCALAR_7
    );
    assert_eq!(w.market().data.long_notional_size, 0);
    assert_eq!(w.market().data.short_notional_size, 0);
    assert_eq!(w.market().data.long_collateral, 0);
    assert_eq!(w.market().data.short_collateral, 0);
}

#[test]
fn test_long_position_liquidation_after_week() {
    let mut w = World::new();
    let (id, _, _) = w.open(order(USER, 10_000 * SCALAR_7, 100_000 * SCALAR_7, true, 0)).unwrap();
    w.jump(WEEK);
    // equity is collateral + pnl - fee with a fee of 218.0000001: it falls below the
    // margin of 500 between these two prices
    w.set_price(907_181_000_000);
    let (code, _) = w.submit(RequestType::Liquidation, id, None);
    assert_eq!(code, TradingError::PositionNotLiquidatable.code());
    assert_eq!(w.position(id).status, PositionStatus::Open);
    w.set_price(907_180_000_000);
    let (code, result) = w.submit(RequestType::Liquidation, id, None);
    assert_eq!(code, 0u32);
    assert_eq!(w.position(id).status, PositionStatus::Closed);
    assert_eq!(result.transfer_of(USER), 0);
    assert_eq!(result.transfer_of(KEEPER), 21_800_000);
    assert_eq!(result.transfer_of(VAULT), 10_000 * SCALAR_7 - 21_800_000);
    assert_eq!(w.market().data.long_collateral, 0);
    assert_eq!(w.market().data.long_notional_size, 0);
}

#[test]
fn test_liquidation_underwater_long_position() {
    let mut w = World::new();
    let (id, _, _) = w.open(order(USER, 1_000 * SCALAR_7, 10_000 * SCALAR_7, true, 0)).unwrap();
    w.set_price(90_000 * SCALAR_7);
    let (code, result) = w.submit(RequestType::Liquidation, id, None);
    assert_eq!(code, 0);
    assert!(result.transfer_of(KEEPER) >= 0);
    assert_eq!(w.position(id).status, PositionStatus::Closed);
    assert_eq!(result.transfer_of(USER), 0);
}

#[test]
fn test_liquidation_underwater_short_position() {
    let mut w = World::new();
    let (id, _, _) = w.open(order(USER, 1_000 * SCALAR_7, 10_000 * SCALAR_7, false, 0)).unwrap();
    w.set_price(110_000 * SCALAR_7);
    let (code, result) = w.submit(RequestType::Liquidation, id, None);
    assert_eq!(code, 0);
    assert_eq!(w.position(id).status, PositionStatus::Closed);
    assert_eq!(result.transfer_of(USER), 0);
    assert_eq!(result.transfer_of(KEEPER) + result.transfer_of(VAULT), 1_000 * SCALAR_7);
}

#[test]
fn test_liquidation_healthy_position() {
    let mut w = World::new();
    let (id, _, _) = w.open(order(USER, 1_000 * SCALAR_7, 2_000 * SCALAR_7, true, 0)).unwrap();
    w.set_price(98_000 * SCALAR_7);
    let (code, result) = w.submit(RequestType::Liquidation, id, None);
    assert_eq!(code, TradingError::PositionNotLiquidatable.code());
    assert_eq!(w.position(id).status, PositionStatus::Open);
    assert_eq!(result.accounts().len(), 0);
}

#[test]
fn failed_request_can_be_tried_again() {
    let mut w = World::new();
    let (id, _, _) = w.open(order(USER, 1_000 * SCALAR_7, 2_000 * SCALAR_7, true, 0)).unwrap();
    w.set_price(98_000 * SCALAR_7);
    let positions = w.trading.positions.clone();
    let markets = w.trading.markets.clone();
    let (first, _) = w.submit(RequestType::Liquidation, id, None);
    assert_eq!(w.trading.positions, positions);
    assert_eq!(w.trading.markets, markets);
    let requests = vec![
        Request { action: RequestType::StopLoss, position: id, data: None },
        Request { action: RequestType::Liquidation, position: id, data: None },
        Request { action: RequestType::Liquidation, position: 999, data: None },
    ];
    let result = process_requests(&w.env, &mut w.trading, &requests);
    assert_eq!(
        result.codes(),
        vec![
            TradingError::StopLossNotTriggered.code(),
            first,
            TradingError::PositionNotFound.code()
        ]
    );
    assert_eq!(w.trading.positions, positions);
    assert_eq!(w.trading.markets, markets);
}

#[test]
fn test_stop_loss_trigger_long_position() {
    let mut w = World::new();
    let (id, _, _) = w.open(order(USER, 1_000 * SCALAR_7, 2_000 * SCALAR_7, true, 0)).unwrap();
    let stop_loss = 95_000 * SCALAR_7;
    let (code, _) = w.submit(RequestType::SetStopLoss, id, Some(stop_loss));
    assert_eq!(code, 0);
    assert_eq!(w.position(id).stop_loss, stop_loss);
    assert_eq!(w.position(id).take_profit, 0);
    w.set_price(95_000 * SCALAR_7);
    let (code, result) = w.submit(RequestType::StopLoss, id, None);
    assert_eq!(code, 0);
    assert_eq!(w.position(id).status, PositionStatus::Closed);
    // 5% down on a notional of 2000 is a loss of 100; the fee is 1.0000001
    assert_eq!(result.transfer_of(USER), 900 * SCALAR_7 - (SCALAR_7 + 1));
}

#[test]
fn test_stop_loss_not_triggered_long() {
    let mut w = World::new();
    let (id, _, _) = w.open(order(USER, 1_000 * SCALAR_7, 2_000 * SCALAR_7, true, 0)).unwrap();
    w.submit(RequestType::SetStopLoss, id, Some(95_000 * SCALAR_7));
    w.set_price(96_000 * SCALAR_7);
    let (code, _) = w.submit(RequestType::StopLoss, id, None);
    assert_eq!(code, TradingError::StopLossNotTriggered.code());
    assert_eq!(w.position(id).status, PositionStatus::Open);
}

#[test]
fn test_take_profit_trigger_short_position() {
    let mut w = World::new();
    let (id, _, _) = w.open(order(USER, 1_000 * SCALAR_7, 2_000 * SCALAR_7, false, 0)).unwrap();
    let (code, _) = w.submit(RequestType::SetTakeProfit, id, Some(90_000 * SCALAR_7));
    assert_eq!(code, 0);
    w.set_price(89_000 * SCALAR_7);
    let (code, result) = w.submit(RequestType::TakeProfit, id, None);
    assert_eq!(code, 0);
    assert_eq!(w.position(id).status, PositionStatus::Closed);
    assert_eq!(result.transfer_of(USER), 1_220 * SCALAR_7 - (SCALAR_7 + 1));
    assert_eq!(result.transfer_of(VAULT), -(220 * SCALAR_7 - (SCALAR_7 + 1)));
}

#[test]
fn test_take_profit_not_triggered_long() {
    let mut w = World::new();
    let (id, _, _) = w.open(order(USER, 1_000 * SCALAR_7, 2_000 * SCALAR_7, true, 0)).unwrap();
    w.submit(RequestType::SetTakeProfit, id, Some(110_000 * SCALAR_7));
    w.set_price(109_000 * SCALAR_7);
    let (code, _) = w.submit(RequestType::TakeProfit, id, None);
    assert_eq!(code, TradingError::TakeProfitNotTriggered.code());
}

#[test]
fn test_set_both_stop_loss_and_take_profit() {
    let mut w = World::new();
    let (id, _, _) = w.open(order(USER, 1_000 * SCALAR_7, 2_000 * SCALAR_7, true, 0)).unwrap();
    let position = w.position(id);
    let changed =
        execute_set_triggers(0, &position, BTC_PRICE, 110_000 * SCALAR_7, 95_000 * SCALAR_7).unwrap();
    assert_eq!(changed.take_profit, 110_000 * SCALAR_7);
    assert_eq!(changed.stop_loss, 95_000 * SCALAR_7);
    let cleared = execute_set_triggers(1, &changed, BTC_PRICE, 0, 0).unwrap();
    assert_eq!((cleared.take_profit, cleared.stop_loss), (0, 0));
    let kept = execute_set_triggers(0, &changed, BTC_PRICE, -1, 0).unwrap();
    assert_eq!((kept.take_profit, kept.stop_loss), (110_000 * SCALAR_7, 0));
}

#[test]
fn test_invalid_stop_loss_long_above_current_price() {
    let mut w = World::new();
    let (id, _, _) = w.open(order(USER, 1_000 * SCALAR_7, 2_000 * SCALAR_7, true, 0)).unwrap();
    let position = w.position(id);
    assert_eq!(
        execute_set_triggers(0, &position, BTC_PRICE, 0, 105_000 * SCALAR_7),
        Err(TradingError::InvalidStopLossPrice)
    );
    assert_eq!(
        execute_set_triggers(0, &position, BTC_PRICE, 0, BTC_PRICE),
        Err(TradingError::InvalidStopLossPrice)
    );
}

#[test]
fn test_invalid_take_profit_long_below_current_price() {
    let mut w = World::new();
    let (id, _, _) = w.open(order(USER, 1_000 * SCALAR_7, 2_000 * SCALAR_7, true, 0)).unwrap();
    let position = w.position(id);
    assert_eq!(
        execute_set_triggers(0, &position, BTC_PRICE, 95_000 * SCALAR_7, 0),
        Err(TradingError::InvalidTakeProfitPrice)
    );
}

#[test]
fn test_invalid_stop_loss_short_below_current_price() {
    let mut w = World::new();
    let (id, _, _) = w.open(order(USER, 1_000 * SCALAR_7, 2_000 * SCALAR_7, false, 0)).unwrap();
    let position = w.position(id);
    assert_eq!(
        execute_set_triggers(0, &position, BTC_PRICE, 0, 95_000 * SCALAR_7),
        Err(TradingError::InvalidStopLossPrice)
    );
}

#[test]
fn test_invalid_take_profit_short_above_current_price() {
    let mut w = World::new();
    let (id, _, _) = w.open(order(USER, 1_000 * SCALAR_7, 2_000 * SCALAR_7, false, 0)).unwrap();
    let position = w.position(id);
    assert_eq!(
        execute_set_triggers(0, &position, BTC_PRICE, 105_000 * SCALAR_7, 0),
        Err(TradingError::InvalidTakeProfitPrice)
    );
}

#[test]
fn triggers_need_an_open_position_and_an_unfrozen_engine() {
    let mut w = World::new();
    let (id, _, _) =
        w.open(order(USER, 1_000 * SCALAR_7, 2_000 * SCALAR_7, true, 99_000 * SCALAR_7)).unwrap();
    let pending = w.position(id);
    assert_eq!(execute_set_triggers(0, &pending, BTC_PRICE, 0, 0), Err(TradingError::PositionNotOpen));
    assert_eq!(execute_set_triggers(2, &pending, BTC_PRICE, 0, 0), Err(TradingError::ContractPaused));
    assert_eq!(execute_set_triggers(99, &pending, BTC_PRICE, 0, 0), Err(TradingError::ContractPaused));
}

#[test]
fn test_invalid_collateral_too_small() {
    let mut w = World::new();
    assert_eq!(
        w.open(order(USER, SCALAR_7 - 1, 2_000 * SCALAR_7, true, 0)),
        Err(TradingError::InvalidCollateral)
    );
}

#[test]
fn test_invalid_collateral_too_large() {
    let mut w = World::new();
    assert_eq!(
        w.open(order(USER, 1_000_000 * SCALAR_7 + 1, 2_000_000 * SCALAR_7, true, 0)),
        Err(TradingError::InvalidCollateral)
    );
}

#[test]
fn test_max_positions_limit() {
    let w = World::new();
    let market = w.market();
    let req = order(USER, 1_000 * SCALAR_7, 2_000 * SCALAR_7, true, 0);
    let at = |held: usize| {
        execute_create_position(&w.env, &w.trading.config, 0, &market, held, VAULT_ASSETS, BTC_PRICE, 0, 0, &req)
    };
    assert!(at(9).is_ok());
    assert_eq!(at(9).unwrap().position.id, 1);
    assert_eq!(at(10), Err(TradingError::MaxPositionsReached));
    assert!(w.trading.check_max_positions(&vec![1, 2, 3]));
    assert!(!w.trading.check_max_positions(&vec![0; 10]));
}

#[test]
fn open_is_refused_in_order_of_the_checks() {
    let w = World::new();
    let mut market = w.market();
    let good = order(USER, 1_000 * SCALAR_7, 2_000 * SCALAR_7, true, 0);
    let open = |status: u32, market: &Market, config: &TradingConfig, req: &OpenRequest| {
        execute_create_position(&w.env, config, status, market, 0, 1_000 * SCALAR_7, BTC_PRICE, 0, 0, req)
    };
    assert_eq!(open(1, &market, &config(), &good), Err(TradingError::ContractPaused));
    assert_eq!(open(99, &market, &config(), &good), Err(TradingError::ContractPaused));
    let mut negative = good;
    negative.notional_size = -1;
    assert_eq!(open(0, &market, &config(), &negative), Err(TradingError::InvalidCollateral));
    let mut bad_entry = good;
    bad_entry.entry_price = -1;
    assert_eq!(open(0, &market, &config(), &bad_entry), Err(TradingError::InvalidEntryPrice));
    let mut capped = config();
    capped.max_utilization = SCALAR_7;
    assert_eq!(open(0, &market, &capped, &good), Err(TradingError::UtilizationLimitExceeded));
    let mut fits = good;
    fits.notional_size = 1_000 * SCALAR_7;
    assert!(open(0, &market, &capped, &fits).is_ok());
    market.config.enabled = false;
    assert_eq!(open(0, &market, &config(), &good), Err(TradingError::MarketDisabled));
}

#[test]
fn open_on_the_lighter_side_pays_no_base_fee() {
    let mut w = World::new();
    w.open(order(USER, 1_000 * SCALAR_7, 5_000 * SCALAR_7, true, 0)).unwrap();
    let (_, charge, deposit) = w.open(order(OTHER, 1_000 * SCALAR_7, 2_000 * SCALAR_7, false, 0)).unwrap();
    assert_eq!(deposit, 1);
    assert_eq!(charge, 1_000 * SCALAR_7 + 1);
}

#[test]
fn modify_collateral_deposit_and_withdraw() {
    let mut w = World::new();
    let (id, _, _) = w.open(order(USER, 2_000 * SCALAR_7, 100_000 * SCALAR_7, true, 0)).unwrap();
    w.jump(3600);
    let position = w.position(id);
    let market = w.trading.load_market(&w.env, BTC).unwrap();
    // one hour at the base rate on a notional of 100000 costs 0.9999999
    let interest = 9_999_999;
    let up = execute_modify_collateral(&w.env, 0, &position, &market, BTC_PRICE, w.trading.now, 2_500 * SCALAR_7).unwrap();
    assert_eq!(up.interest_fee, interest);
    assert_eq!(up.vault_transfer, interest);
    assert_eq!(up.user_transfer, -(500 * SCALAR_7 + interest));
    assert_eq!(up.position.collateral, 2_500 * SCALAR_7);
    assert_eq!(up.position.interest_index, market.data.long_interest_index);
    assert_eq!(up.market.data.long_collateral, 2_500 * SCALAR_7);
    let down = execute_modify_collateral(&w.env, 1, &position, &market, BTC_PRICE, w.trading.now, 2_000 * SCALAR_7 - interest - 5).unwrap();
    assert_eq!(down.user_transfer, 5);
    // the margin is 1% of the notional, 1000: less than that cannot stay
    assert_eq!(
        execute_modify_collateral(&w.env, 0, &position, &market, BTC_PRICE, w.trading.now, 999 * SCALAR_7),
        Err(TradingError::WithdrawalBreaksMargin)
    );
    assert_eq!(
        execute_modify_collateral(&w.env, 0, &position, &market, BTC_PRICE, w.trading.now, 0),
        Err(TradingError::InvalidCollateral)
    );
    assert_eq!(
        execute_modify_collateral(&w.env, 2, &position, &market, BTC_PRICE, w.trading.now, 5),
        Err(TradingError::ContractPaused)
    );
    let mut pending = position;
    pending.status = PositionStatus::Pending;
    assert_eq!(
        execute_modify_collateral(&w.env, 0, &pending, &market, BTC_PRICE, w.trading.now, 5),
        Err(TradingError::PositionNotOpen)
    );
}

#[test]
fn batch_deposit_and_withdraw_collateral() {
    let mut w = World::new();
    let (id, _, _) = w.open(order(USER, 2_000 * SCALAR_7, 100_000 * SCALAR_7, true, 0)).unwrap();
    let (code, result) = w.submit(RequestType::DepositCollateral, id, Some(300));
    assert_eq!(code, 0);
    assert_eq!(result.transfer_of(USER), -300);
    assert_eq!(w.position(id).collateral, 2_000 * SCALAR_7 + 300);
    assert_eq!(w.market().data.long_collateral, 2_000 * SCALAR_7 + 300);
    let (code, result) = w.submit(RequestType::WithdrawCollateral, id, Some(300));
    assert_eq!(code, 0);
    assert_eq!(result.transfer_of(USER), 300);
    assert_eq!(w.position(id).collateral, 2_000 * SCALAR_7);
    assert_eq!(w.submit(RequestType::DepositCollateral, id, None).0, TradingError::BadRequest.code());
    assert_eq!(w.submit(RequestType::WithdrawCollateral, id, Some(0)).0, TradingError::BadRequest.code());
    assert_eq!(w.submit(RequestType::SetStopLoss, id, None).0, TradingError::BadRequest.code());
    assert_eq!(
        w.submit(RequestType::WithdrawCollateral, id, Some(1_500 * SCALAR_7)).0,
        TradingError::WithdrawalBreaksMargin.code()
    );
    assert_eq!(
        w.submit(RequestType::WithdrawCollateral, id, Some(2_000 * SCALAR_7)).0,
        TradingError::InvalidCollateral.code()
    );
}

#[test]
fn batch_reports_missing_price_and_market() {
    let mut w = World::new();
    let (id, _, _) = w.open(order(USER, 1_000 * SCALAR_7, 2_000 * SCALAR_7, true, 0)).unwrap();
    let position = w.position(id);
    w.trading.now = 301;
    assert_eq!(w.submit(RequestType::Close, id, None).0, TradingError::PriceStale.code());
    w.trading.now = 300;

    let env = Env::default();
    let mut no_price = Trading::load(&env, config(), VAULT, TOKEN, KEEPER, 0);
    no_price.preload_market(&w.market());
    no_price.preload_position(&position);
    let close = vec![Request { action: RequestType::Close, position: id, data: None }];
    assert_eq!(
        process_requests(&env, &mut no_price, &close).codes(),
        vec![TradingError::PriceNotFound.code()]
    );
    let mut no_market = Trading::load(&env, config(), VAULT, TOKEN, KEEPER, 0);
    no_market.preload_price(&PriceData { asset: BTC, price: BTC_PRICE, timestamp: 0 });
    no_market.preload_position(&position);
    assert_eq!(
        process_requests(&env, &mut no_market, &close).codes(),
        vec![TradingError::MarketNotFound.code()]
    );
    assert_eq!(no_market.changed_positions(), Vec::<u32>::new());

    assert_eq!(w.submit(RequestType::Fill, id, None).0, TradingError::PositionNotPending.code());
    assert_eq!(w.submit(RequestType::Close, id, None).0, 0);
    assert_eq!(
        w.submit(RequestType::Close, id, None).0,
        TradingError::ActionNotAllowedForStatus.code()
    );
}

#[test]
fn keeper_batch_and_status() {
    let mut w = World::new();
    let (id, _, _) =
        w.open(order(USER, 1_000 * SCALAR_7, 2_000 * SCALAR_7, true, 99_000 * SCALAR_7)).unwrap();
    w.set_price(99_000 * SCALAR_7);
    let requests = vec![
        ExecuteRequest { request_type: ExecuteRequestType::Liquidate, position_id: id },
        ExecuteRequest { request_type: ExecuteRequestType::Fill, position_id: id },
        ExecuteRequest { request_type: ExecuteRequestType::Fill, position_id: id },
        ExecuteRequest { request_type: ExecuteRequestType::TakeProfit, position_id: id },
    ];
    let before = w.trading.positions.clone();
    assert!(matches!(
        execute_trigger(&w.env, 2, &mut w.trading, &requests),
        Err(TradingError::ContractPaused)
    ));
    assert!(matches!(
        execute_submit(&w.env, 99, &mut w.trading, &vec![]),
        Err(TradingError::ContractPaused)
    ));
    assert_eq!(w.trading.positions, before);
    let result = execute_trigger(&w.env, 1, &mut w.trading, &requests).unwrap();
    assert_eq!(
        result.codes(),
        vec![
            TradingError::ActionNotAllowedForStatus.code(),
            0,
            TradingError::PositionNotPending.code(),
            TradingError::TakeProfitNotTriggered.code()
        ]
    );
    assert_eq!(w.position(id).status, PositionStatus::Open);
    assert_eq!(result.transfer_of(KEEPER), 100_000);
}

#[test]
fn settlement_runs_vault_out_then_others_then_vault_in() {
    let mut w = World::new();
    w.trading.markets[0].config.base_fee = 0;
    let (winner, _, _) = w.open(order(USER, 10_000 * SCALAR_7, 20_000 * SCALAR_7, true, 0)).unwrap();
    w.set_price(105_000 * SCALAR_7);
    let (_, result) = w.submit(RequestType::Close, winner, None);
    let plan = settlement_plan(&result, VAULT);
    assert_eq!(
        plan,
        vec![
            TransferStep::VaultWithdraw { amount: 1_000 * SCALAR_7 - 1 },
            TransferStep::Pay { to: USER, amount: 11_000 * SCALAR_7 - 1 },
        ]
    );

    let mut result = perp_engine::transfers::SubmitResult::new(&w.env);
    result.add_transfer(USER, -40);
    result.add_transfer(VAULT, 25);
    result.add_transfer(KEEPER, 10);
    result.add_transfer(KEEPER, 5);
    result.add_transfer(OTHER, 0);
    let plan = settlement_plan(&result, VAULT);
    assert_eq!(plan.len(), 3);
    assert_eq!(plan[2], TransferStep::VaultDeposit { amount: 25 });
    assert!(plan.contains(&TransferStep::Collect { from: USER, amount: 40 }));
    assert!(plan.contains(&TransferStep::Pay { to: KEEPER, amount: 15 }));
    let mut accounts = result.accounts();
    accounts.sort();
    assert_eq!(accounts, vec![USER, OTHER, KEEPER, VAULT]);
}

#[test]
fn totals_follow_the_open_positions() {
    let mut w = World::new();
    let (a, _, _) = w.open(order(USER, 1_000 * SCALAR_7, 2_000 * SCALAR_7, true, 0)).unwrap();
    let (b, _, _) = w.open(order(OTHER, 500 * SCALAR_7, 4_000 * SCALAR_7, true, 0)).unwrap();
    let (c, _, _) = w.open(order(OTHER, 700 * SCALAR_7, 900 * SCALAR_7, false, 0)).unwrap();
    w.open(order(USER, 100 * SCALAR_7, 100 * SCALAR_7, true, 99_000 * SCALAR_7)).unwrap();
    w.jump(3600);
    w.submit(RequestType::DepositCollateral, b, Some(50 * SCALAR_7));
    w.submit(RequestType::Close, a, None);
    let sum = |w: &World, is_long: bool| {
        w.trading.positions.iter().filter(|p| p.status == PositionStatus::Open && p.is_long == is_long).fold(
            (0i128, 0i128),
            |acc, p| (acc.0 + p.collateral, acc.1 + p.notional_size),
        )
    };
    let m = w.market();
    assert_eq!((m.data.long_collateral, m.data.long_notional_size), sum(&w, true));
    assert_eq!((m.data.short_collateral, m.data.short_notional_size), sum(&w, false));
    assert_eq!(m.data.long_notional_size, 4_000 * SCALAR_7);
    assert_eq!(w.position(c).status, PositionStatus::Open);
    for p in w.trading.positions.iter() {
        assert!(p.collateral >= 0 && p.notional_size >= 0);
        assert!(p.status != PositionStatus::Open || p.entry_price > 0);
    }
}

#[test]
fn owners_are_asked_once_and_only_for_their_own_requests() {
    let requests = vec![
        Request { action: RequestType::Close, position: 1, data: None },
        Request { action: RequestType::Liquidation, position: 2, data: None },
        Request { action: RequestType::SetStopLoss, position: 3, data: Some(5) },
        Request { action: RequestType::Cancel, position: 4, data: None },
        Request { action: RequestType::DepositCollateral, position: 5, data: Some(1) },
    ];
    let results = vec![0, 0, 0, 42, 0];
    let owners = vec![USER, OTHER, USER, KEEPER, OTHER];
    assert_eq!(perp_engine::batch::authorisations(&requests, &results, &owners), vec![USER, OTHER]);
    assert!(perp_engine::batch::requires_owner_auth(RequestType::WithdrawCollateral));
    assert!(perp_engine::batch::requires_owner_auth(RequestType::SetTakeProfit));
    assert!(!perp_engine::batch::requires_owner_auth(RequestType::Fill));
    assert!(!perp_engine::batch::requires_owner_auth(RequestType::TakeProfit));
}

#[test]
fn test_profitable_long_position_small_gain() {
    let mut w = World::new();
    let (id, charge, _) = w.open(order(USER, 1_000 * SCALAR_7, 2_000 * SCALAR_7, true, 0)).unwrap();
    let base_fee = SCALAR_7;
    let price_impact = 1;
    assert_eq!(charge, 1_000 * SCALAR_7 + base_fee + price_impact);
    w.jump(3600);
    w.set_price(105_000 * SCALAR_7);
    let (code, result) = w.submit(RequestType::Close, id, None);
    assert_eq!(code, 0);
    assert_eq!(w.position(id).status, PositionStatus::Closed);
    // 5% up on a notional of 2000 is a gain of 100; an hour at the base rate costs 0.0199999
    let interest = 199_999;
    let expected_profit = 100 * SCALAR_7 - base_fee - base_fee - price_impact - price_impact - interest;
    assert_eq!(result.transfer_of(USER) - charge, expected_profit);
}

#[test]
fn test_long_short_week_5pct_move_print_balances() {
    let mut w = World::new();
    let (long_id, long_charge, long_deposit) =
        w.open(order(USER, 25_000 * SCALAR_7, 50_000 * SCALAR_7, true, 0)).unwrap();
    let (short_id, short_charge, short_deposit) =
        w.open(order(OTHER, 10_000 * SCALAR_7, 100_000 * SCALAR_7, false, 0)).unwrap();
    w.jump(604800);
    w.set_price(105_000 * SCALAR_7);
    w.trading.caller = USER;
    let (code, result1) = w.submit(RequestType::Close, long_id, None);
    assert_eq!(code, 0);
    w.trading.caller = OTHER;
    let (code, result2) = w.submit(RequestType::Close, short_id, None);
    assert_eq!(code, 0);
    assert_eq!(w.position(long_id).status, PositionStatus::Closed);
    assert_eq!(w.position(short_id).status, PositionStatus::Closed);
    // the shorts are twice the longs: they pay twice the base rate, the longs earn 3.2 times it
    assert_eq!(w.market().data.long_interest_index, 994_623_999_999_999_999);
    assert_eq!(w.market().data.short_interest_index, 1_003_359_999_999_999_999);
    let delta_user1 = result1.transfer_of(USER) - long_charge;
    let delta_user2 = result2.transfer_of(OTHER) - short_charge;
    let delta_vault = long_deposit + short_deposit + result1.transfer_of(VAULT) + result2.transfer_of(VAULT);
    // the gain of 2500 and the rebate of 268.8, less the keeper's share of the rebate and the opening fee
    assert_eq!(delta_user1, 27_411_119_999);
    let expected_delta_user2 = -5436 * SCALAR_7;
    let tolerance_user2 = 5 * SCALAR_7;
    assert!((delta_user2 - expected_delta_user2).abs() <= tolerance_user2);
    // the loss of 5000 and a fee of 386.0000001, of which 3.86 come back as the share of whoever closes
    assert_eq!(delta_user2, -54_360_000_003 + 38_600_000);
    assert_eq!(delta_vault, 26_910_280_004);
    assert_eq!(delta_user1 + delta_user2 + delta_vault, 0);
}

#[test]
fn test_equal_short_long_notional() {
    let mut w = World::new();
    w.trading.config.caller_take_rate = 0;
    let collateral = 50_000 * SCALAR_7;
    let notional = 200_000 * SCALAR_7;
    let (short_id, short_charge, _) = w.open(order(USER, collateral, notional, false, 0)).unwrap();
    let (long_id, long_charge, _) = w.open(order(OTHER, collateral, notional, true, 0)).unwrap();
    w.jump(604800);
    w.set_price(90_000 * SCALAR_7);
    let (code, result1) = w.submit(RequestType::Close, short_id, None);
    assert_eq!(code, 0);
    let (code, result2) = w.submit(RequestType::Close, long_id, None);
    assert_eq!(code, 0);
    assert_eq!(w.position(short_id).status, PositionStatus::Closed);
    assert_eq!(w.position(long_id).status, PositionStatus::Closed);
    let delta_user1 = result1.transfer_of(USER) - short_charge;
    let delta_user2 = result2.transfer_of(OTHER) - long_charge;
    let expected_delta_user1 = 19_464 * SCALAR_7;
    let expected_delta_user2 = -20_536 * SCALAR_7;
    let tolerance = SCALAR_7 / 2;
    assert!((delta_user1 - expected_delta_user1).abs() <= tolerance);
    assert!((delta_user2 - expected_delta_user2).abs() <= tolerance);
    assert_eq!(delta_user1, 194_639_999_991);
    assert_eq!(delta_user2, -205_360_000_009);
}

#[test]
fn test_changing_long_short_ratio() {
    let mut w = World::new();
    let third = 9;
    let (id1, _, d1) = w.open(order(USER, 20_000 * SCALAR_7, 100_000 * SCALAR_7, true, 0)).unwrap();
    let (id2, _, d2) = w.open(order(OTHER, 10_000 * SCALAR_7, 50_000 * SCALAR_7, false, 0)).unwrap();
    assert_eq!(d1, 500_000_002);
    assert_eq!(d2, 1);
    w.jump(WEEK);
    let (id3, _, d3) = w.open(order(third, 10_000 * SCALAR_7, 50_000 * SCALAR_7, false, 0)).unwrap();
    assert_eq!(d3, 250_000_001);
    assert_eq!(w.position(id3).interest_index, 994_623_999_999_999_999);
    w.jump(WEEK);
    let (code, r1) = w.submit(RequestType::Close, id1, None);
    assert_eq!(code, 0);
    let (code, r2) = w.submit(RequestType::Close, id2, None);
    assert_eq!(code, 0);
    let (code, r3) = w.submit(RequestType::Close, id3, None);
    assert_eq!(code, 0);
    assert_eq!(w.position(id1).status, PositionStatus::Closed);
    assert_eq!(w.position(id2).status, PositionStatus::Closed);
    assert_eq!(w.position(id3).status, PositionStatus::Closed);
    assert_eq!(w.market().data.long_interest_index, 1_005_045_644_799_999_997);
    assert_eq!(w.market().data.short_interest_index, 996_294_968_319_999_998);
    // the long paid for two weeks, the first short was paid for the first and paid in the second
    assert_eq!(r1.transfer_of(USER), 194_454_355_199);
    assert_eq!(r1.transfer_of(KEEPER), 55_456_448);
    assert_eq!(r1.transfer_of(VAULT), 5_490_188_353);
    assert_eq!(r2.transfer_of(OTHER), 101_586_490_681);
    assert_eq!(r2.transfer_of(VAULT), -1_586_490_681);
    assert_eq!(r3.transfer_of(third), 98_914_515_840);
    assert_eq!(r3.transfer_of(KEEPER), 10_854_841);
    assert_eq!(r3.transfer_of(VAULT), 1_074_629_319);
}

#[test]
fn test_modify_risk_parameters() {
    let mut w = World::new();
    let (id, _, _) = w.open(order(USER, 1_000 * SCALAR_7, 2_000 * SCALAR_7, true, 0)).unwrap();
    let position = w.position(id);
    assert_eq!(position.stop_loss, 0);
    assert_eq!(position.take_profit, 0);
    let stop_loss = 95_000_0000000;
    let take_profit = 105_000_0000000;
    let changed = execute_set_triggers(0, &position, BTC_PRICE, take_profit, stop_loss).unwrap();
    assert_eq!(changed.stop_loss, stop_loss);
    assert_eq!(changed.take_profit, take_profit);
}

#[test]
fn test_modify_risk_parameters_partial() {
    let mut w = World::new();
    let (id, _, _) = w.open(order(USER, 1_000 * SCALAR_7, 2_000 * SCALAR_7, true, 0)).unwrap();
    let position = w.position(id);
    let stop_loss = 95_000_0000000;
    let changed = execute_set_triggers(0, &position, BTC_PRICE, 0, stop_loss).unwrap();
    assert_eq!(changed.stop_loss, stop_loss);
    assert_eq!(changed.take_profit, 0);
    let take_profit = 105_000_0000000;
    let changed = execute_set_triggers(0, &changed, BTC_PRICE, take_profit, 0).unwrap();
    assert_eq!(changed.stop_loss, 0);
    assert_eq!(changed.take_profit, take_profit);
}

#[test]
fn test_remove_risk_parameters() {
    let mut w = World::new();
    let (id, _, _) = w.open(order(USER, 1_000 * SCALAR_7, 2_000 * SCALAR_7, true, 0)).unwrap();
    let position = w.position(id);
    let set = execute_set_triggers(0, &position, BTC_PRICE, 110_000 * SCALAR_7, 95_000 * SCALAR_7).unwrap();
    assert_eq!(set.stop_loss, 95_000 * SCALAR_7);
    assert_eq!(set.take_profit, 110_000 * SCALAR_7);
    let removed = execute_set_triggers(0, &set, BTC_PRICE, 0, 0).unwrap();
    assert_eq!(removed.stop_loss, 0);
    assert_eq!(removed.take_profit, 0);
}

#[test]
fn test_partial_risk_parameter_update() {
    let mut w = World::new();
    let (id, _, _) = w.open(order(USER, 1_000 * SCALAR_7, 2_000 * SCALAR_7, true, 0)).unwrap();
    w.submit(RequestType::SetStopLoss, id, Some(95_000 * SCALAR_7));
    w.submit(RequestType::SetTakeProfit, id, Some(110_000 * SCALAR_7));
    assert_eq!(w.position(id).stop_loss, 95_000 * SCALAR_7);
    assert_eq!(w.position(id).take_profit, 110_000 * SCALAR_7);
    w.submit(RequestType::SetStopLoss, id, Some(96_000 * SCALAR_7));
    assert_eq!(w.trading.changed_positions(), vec![id]);
    assert_eq!(w.position(id).stop_loss, 96_000 * SCALAR_7);
    assert_eq!(w.position(id).take_profit, 110_000 * SCALAR_7);
    assert_eq!(w.trading.changed_markets(), vec![BTC]);
}

#[test]
fn test_multiple_positions_same_user() {
    let mut w = World::new();
    w.trading.preload_market(&market(ETH, 0));
    w.trading.preload_price(&PriceData { asset: ETH, price: 2_000 * SCALAR_7, timestamp: 0 });
    let (btc, _, _) = w.open(order(USER, 1_000 * SCALAR_7, 2_000 * SCALAR_7, true, 0)).unwrap();
    let eth_market = w.trading.load_market(&w.env, ETH).unwrap();
    let mut eth_order = order(USER, 500 * SCALAR_7, 1_500 * SCALAR_7, false, 0);
    eth_order.asset = ETH;
    let opened = execute_create_position(
        &w.env,
        &w.trading.config,
        0,
        &eth_market,
        1,
        VAULT_ASSETS,
        w.trading.load_price(ETH).unwrap(),
        1,
        0,
        &eth_order,
    )
    .unwrap();
    w.trading.cache_market(&opened.market);
    w.trading.cache_position(&opened.position);
    let btc_pos = w.position(btc);
    let eth_pos = w.position(2);
    assert_eq!(btc_pos.collateral, 1_000 * SCALAR_7);
    assert_eq!(eth_pos.collateral, 500 * SCALAR_7);
    assert!(btc_pos.is_long);
    assert!(!eth_pos.is_long);
    assert_eq!(btc_pos.status, PositionStatus::Open);
    assert_eq!(eth_pos.status, PositionStatus::Open);
    assert_eq!(eth_pos.entry_price, 2_000 * SCALAR_7);
    assert_eq!(w.trading.markets[0].data.long_notional_size, 2_000 * SCALAR_7);
    assert_eq!(w.trading.markets[1].data.short_notional_size, 1_500 * SCALAR_7);
    assert_eq!(w.trading.markets[1].data.long_notional_size, 0);
    assert_eq!(w.trading.changed_markets(), vec![BTC, ETH]);
}

#[test]
fn test_multiple_positions_different_users() {
    let mut w = World::new();
    let (first, _, _) = w.open(order(USER, 1_000 * SCALAR_7, 2_000 * SCALAR_7, true, 0)).unwrap();
    let (second, _, _) = w.open(order(OTHER, 2_000 * SCALAR_7, 6_000 * SCALAR_7, false, 0)).unwrap();
    let (third, _, _) = w.open(order(9, 500 * SCALAR_7, 750 * SCALAR_7, true, 0)).unwrap();
    assert_eq!(w.position(first).user, USER);
    assert_eq!(w.position(second).user, OTHER);
    assert_eq!(w.position(third).user, 9);
    assert!(w.position(first).is_long);
    assert!(!w.position(second).is_long);
    assert!(w.position(third).is_long);
    let market_data = w.market().data;
    assert_eq!(market_data.long_collateral, 1_500 * SCALAR_7);
    assert_eq!(market_data.short_collateral, 2_000 * SCALAR_7);
    assert_eq!(market_data.long_notional_size, 2_750 * SCALAR_7);
    assert_eq!(market_data.short_notional_size, 6_000 * SCALAR_7);
}

#[test]
fn test_stop_loss_trigger_short_position() {
    let mut w = World::new();
    let (id, _, _) = w.open(order(USER, 1_000 * SCALAR_7, 2_000 * SCALAR_7, false, 0)).unwrap();
    let (code, _) = w.submit(RequestType::SetStopLoss, id, Some(105_000 * SCALAR_7));
    assert_eq!(code, 0);
    w.set_price(105_000 * SCALAR_7);
    let (code, result) = w.submit(RequestType::StopLoss, id, None);
    assert_eq!(code, 0);
    assert_eq!(w.position(id).status, PositionStatus::Closed);
    assert_eq!(result.transfer_of(USER), 900 * SCALAR_7 - (SCALAR_7 + 1));
}

#[test]
fn test_stop_loss_not_triggered_short() {
    let mut w = World::new();
    let (id, _, _) = w.open(order(USER, 1_000 * SCALAR_7, 2_000 * SCALAR_7, false, 0)).unwrap();
    w.submit(RequestType::SetStopLoss, id, Some(105_000 * SCALAR_7));
    w.set_price(104_000 * SCALAR_7);
    let (code, _) = w.submit(RequestType::StopLoss, id, None);
    assert_eq!(code, TradingError::StopLossNotTriggered.code());
    assert_eq!(w.position(id).status, PositionStatus::Open);
}

#[test]
fn test_take_profit_trigger_long_position() {
    let mut w = World::new();
    let (id, _, _) = w.open(order(USER, 1_000 * SCALAR_7, 2_000 * SCALAR_7, true, 0)).unwrap();
    let (code, _) = w.submit(RequestType::SetTakeProfit, id, Some(110_000 * SCALAR_7));
    assert_eq!(code, 0);
    w.set_price(110_000 * SCALAR_7);
    let (code, result) = w.submit(RequestType::TakeProfit, id, None);
    assert_eq!(code, 0);
    assert_eq!(w.position(id).status, PositionStatus::Closed);
    assert_eq!(result.transfer_of(USER), 1_200 * SCALAR_7 - (SCALAR_7 + 1));
}

#[test]
fn test_stop_loss_triggers_before_take_profit() {
    let mut w = World::new();
    let (id, _, _) = w.open(order(USER, 1_000 * SCALAR_7, 2_000 * SCALAR_7, true, 0)).unwrap();
    let position = w.position(id);
    let set = execute_set_triggers(0, &position, BTC_PRICE, 110_000_0000000, 95_000_0000000).unwrap();
    w.trading.cache_position(&set);
    w.set_price(95_000_0000000);
    let (code, _) = w.submit(RequestType::TakeProfit, id, None);
    assert_eq!(code, TradingError::TakeProfitNotTriggered.code());
    let (code, _) = w.submit(RequestType::StopLoss, id, None);
    assert_eq!(code, 0);
    assert_eq!(w.position(id).status, PositionStatus::Closed);
}

#[test]
fn test_take_profit_triggers_before_stop_loss() {
    let mut w = World::new();
    let (id, _, _) = w.open(order(USER, 1_000 * SCALAR_7, 2_000 * SCALAR_7, true, 0)).unwrap();
    let position = w.position(id);
    let set = execute_set_triggers(0, &position, BTC_PRICE, 110_000_0000000, 95_000_0000000).unwrap();
    w.trading.cache_position(&set);
    w.set_price(110_000_0000000);
    let (code, _) = w.submit(RequestType::StopLoss, id, None);
    assert_eq!(code, TradingError::StopLossNotTriggered.code());
    let (code, _) = w.submit(RequestType::TakeProfit, id, None);
    assert_eq!(code, 0);
    assert_eq!(w.position(id).status, PositionStatus::Closed);
}

#[test]
fn test_create_fixture_with_data() {
    let mut w = World::new();
    w.trading.preload_market(&market(ETH, 0));
    w.trading.preload_market(&market(2, 0));
    assert_eq!(w.trading.markets.len(), 3);
    assert_eq!(w.trading.find_market(ETH), Some(1));
    assert_eq!(w.trading.find_market(7), None);
    assert_eq!(w.trading.load_price(BTC), Ok(BTC_PRICE));
    assert_eq!(w.trading.config.max_positions, 10);
    assert_eq!(w.trading.calculate_caller_fee(&w.env, 1_000), 10);
    assert_eq!(w.market().config.base_fee, 5_000);
    assert_eq!(w.market().data.long_interest_index, SCALAR_18);
}

#[test]
fn dominant_long_pays_and_late_short_follows_the_imbalance() {
    let mut w = World::new();
    let (long_id, _, _) = w.open(order(USER, 20_000 * SCALAR_7, 100_000 * SCALAR_7, true, 0)).unwrap();
    w.jump(WEEK);
    let (short_id, _, deposit) =
        w.open(order(OTHER, 10_000 * SCALAR_7, 50_000 * SCALAR_7, false, 0)).unwrap();
    // alone for a week, the longs paid the base rate and the empty side was credited 0.8 of it
    assert_eq!(w.market().data.long_interest_index, 1_001_679_999_999_999_999);
    assert_eq!(w.market().data.short_interest_index, 998_655_999_999_999_999);
    assert_eq!(w.position(short_id).interest_index, 998_655_999_999_999_999);
    assert_eq!(deposit, 1);
    w.jump(WEEK);
    let (code, result) = w.submit(RequestType::Close, short_id, None);
    assert_eq!(code, 0);
    // with longs at twice the shorts, the longs pay twice the base rate and the shorts earn 3.2 times it
    assert_eq!(w.market().data.long_interest_index, 1_005_045_644_799_999_997);
    assert_eq!(w.market().data.short_interest_index, 993_287_225_343_999_998);
    assert_eq!(result.transfer_of(OTHER), 102_657_543_454);
    assert_eq!(result.transfer_of(VAULT), -2_657_543_454);
    assert_eq!(result.transfer_of(KEEPER), 0);
    let (code, result) = w.submit(RequestType::Close, long_id, None);
    assert_eq!(code, 0);
    assert_eq!(result.transfer_of(USER), 194_454_355_199);
    assert_eq!(result.transfer_of(KEEPER), 55_456_448);
    assert_eq!(result.transfer_of(VAULT), 5_490_188_353);
}

#[test]
fn limit_order_fill_then_close() {
    let mut w = World::new();
    let (id, charge, deposit) =
        w.open(order(USER, 1_000 * SCALAR_7, 2_000 * SCALAR_7, true, 99_000 * SCALAR_7)).unwrap();
    assert_eq!(w.position(id).status, PositionStatus::Pending);
    assert_eq!(charge, 1_000 * SCALAR_7 + SCALAR_7 + 1);
    assert_eq!(deposit, 0);
    assert_eq!(w.market().data.long_notional_size, 0);
    w.set_price(99_000 * SCALAR_7);
    let requests = vec![ExecuteRequest { request_type: ExecuteRequestType::Fill, position_id: id }];
    let filled = execute_trigger(&w.env, 0, &mut w.trading, &requests).unwrap();
    assert_eq!(filled.codes(), vec![0]);
    assert_eq!(filled.transfer_of(KEEPER), 100_000);
    assert_eq!(filled.transfer_of(VAULT), SCALAR_7 + 1 - 100_000);
    assert_eq!(filled.transfer_of(KEEPER) + filled.transfer_of(VAULT), charge - 1_000 * SCALAR_7);
    assert_eq!(w.market().data.long_notional_size, 2_000 * SCALAR_7);
    assert_eq!(w.market().data.long_collateral, 1_000 * SCALAR_7);
    let (code, closed) = w.submit(RequestType::Close, id, None);
    assert_eq!(code, 0);
    assert_eq!(closed.transfer_of(USER), 1_000 * SCALAR_7 - (SCALAR_7 + 1));
    assert_eq!(closed.transfer_of(KEEPER), 100_000);
    assert_eq!(closed.transfer_of(VAULT), SCALAR_7 + 1 - 100_000);
    assert_eq!(w.market().data.long_notional_size, 0);
}

#[test]
fn limit_order_on_the_lighter_side_keeps_its_collateral_whole() {
    let mut w = World::new();
    w.open(order(OTHER, 5_000 * SCALAR_7, 50_000 * SCALAR_7, false, 0)).unwrap();
    let (id, charge, deposit) =
        w.open(order(USER, 1_000 * SCALAR_7, 2_000 * SCALAR_7, true, 99_000 * SCALAR_7)).unwrap();
    // no base fee on the lighter side: collateral and price impact are locked
    assert_eq!(charge, 10_000_000_001);
    assert_eq!(deposit, 0);
    assert_eq!(w.position(id).held_base_fee, 0);
    assert_eq!(w.position(id).held_price_impact, 1);
    w.set_price(99_000 * SCALAR_7);
    let (code, filled) = w.submit(RequestType::Fill, id, None);
    assert_eq!(code, 0);
    // the fill pays out what was locked beside the collateral, and no more
    assert_eq!(filled.transfer_of(KEEPER), 0);
    assert_eq!(filled.transfer_of(VAULT), 1);
    assert_eq!(filled.transfer_of(USER), 0);
    assert_eq!(w.position(id).collateral, 10_000_000_000);
    let (code, closed) = w.submit(RequestType::Close, id, None);
    assert_eq!(code, 0);
    assert_eq!(
        closed.transfer_of(USER) + closed.transfer_of(KEEPER) + closed.transfer_of(VAULT),
        10_000_000_000
    );
    // over its whole life the order paid out exactly what it paid in
    assert_eq!(
        filled.transfer_of(VAULT)
            + closed.transfer_of(USER)
            + closed.transfer_of(KEEPER)
            + closed.transfer_of(VAULT),
        charge
    );
}

#[test]
fn a_price_that_is_not_positive_opens_and_fills_nothing() {
    let mut w = World::new();
    let (id, _, _) =
        w.open(order(USER, 1_000 * SCALAR_7, 2_000 * SCALAR_7, true, 99_000 * SCALAR_7)).unwrap();
    w.set_price(0);
    assert_eq!(
        w.open(order(OTHER, 1_000 * SCALAR_7, 2_000 * SCALAR_7, true, 0)),
        Err(TradingError::InvalidEntryPrice)
    );
    assert_eq!(
        w.open(order(OTHER, 1_000 * SCALAR_7, 2_000 * SCALAR_7, false, 5)),
        Err(TradingError::InvalidEntryPrice)
    );
    let (code, _) = w.submit(RequestType::Fill, id, None);
    assert_eq!(code, TradingError::LimitOrderNotFillable.code());
    w.set_price(-5);
    let (code, _) = w.submit(RequestType::Fill, id, None);
    assert_eq!(code, TradingError::LimitOrderNotFillable.code());
    assert_eq!(w.position(id).status, PositionStatus::Pending);
    w.set_price(1);
    let (code, _) = w.submit(RequestType::Fill, id, None);
    assert_eq!(code, 0);
    assert_eq!(w.position(id).entry_price, 1);
}

#[test]
fn a_failed_request_leaves_no_trace_in_its_batch() {
    let run = |requests: &Vec<Request>| {
        let mut w = World::new();
        let (a, _, _) = w.open(order(USER, 1_000 * SCALAR_7, 2_000 * SCALAR_7, true, 0)).unwrap();
        let (b, _, _) =
            w.open(order(OTHER, 1_000 * SCALAR_7, 2_000 * SCALAR_7, true, 99_000 * SCALAR_7)).unwrap();
        assert_eq!((a, b), (1, 2));
        w.set_price(99_000 * SCALAR_7);
        let result = process_requests(&w.env, &mut w.trading, requests);
        let transfers: Vec<i128> =
            [USER, OTHER, KEEPER, VAULT].iter().map(|x| result.transfer_of(*x)).collect();
        (
            w.trading.positions.clone(),
            w.trading.markets.clone(),
            w.trading.changed_positions(),
            w.trading.changed_markets(),
            transfers,
            result.codes(),
        )
    };
    let with = vec![
        Request { action: RequestType::Fill, position: 2, data: None },
        Request { action: RequestType::Liquidation, position: 1, data: None },
        Request { action: RequestType::Close, position: 1, data: None },
    ];
    let without = vec![with[0], with[2]];
    let a = run(&with);
    let b = run(&without);
    assert_eq!(a.5, vec![0, TradingError::PositionNotLiquidatable.code(), 0]);
    assert_eq!(b.5, vec![0, 0]);
    assert_eq!((a.0, a.1, a.2, a.3, a.4), (b.0, b.1, b.2, b.3, b.4));
}
