use crate::constants::SCALAR_7;
use vstd::prelude::*;

verus! {

/// Handle of an account: two handles are equal exactly when they stand for
/// the same address.
pub type AccountId = u64;

/// Handle of a traded asset.
pub type AssetId = u32;

/// Engine-wide settings.
#[derive(Clone, Copy, Debug, PartialEq, Eq, Structural)]
pub struct TradingConfig {
    /// The price feed.
    pub oracle: AccountId,
    /// Share of a fee that goes to the keeper, at `SCALAR_7`.
    pub caller_take_rate: i128,
    /// Most positions that one user may hold at a time.
    pub max_positions: u32,
    /// Cap on a market's total notional as a multiple of the vault's
    /// assets, at `SCALAR_7`; zero switches the cap off.
    pub max_utilization: i128,
}

#[derive(Clone, Copy, Debug, PartialEq, Eq, Structural)]
pub enum PositionStatus {
    /// A limit order that has not been filled.
    Pending,
    Open,
    Closed,
}

/// Settings of one market.
#[derive(Clone, Copy, Debug, PartialEq, Eq, Structural)]
pub struct MarketConfig {
    pub enabled: bool,
    pub max_payout: i128,
    pub min_collateral: i128,
    pub max_collateral: i128,
    pub init_margin: i128,
    pub maintenance_margin: i128,
    pub base_fee: i128,
    pub price_impact_scalar: i128,
    pub base_hourly_rate: i128,
}

/// A queued change of the engine-wide settings.
#[derive(Clone, Copy, Debug, PartialEq, Eq, Structural)]
pub struct ConfigUpdate {
    pub config: TradingConfig,
    pub unlock_time: u64,
}

/// A queued market, waiting for its unlock time.
#[derive(Clone, Copy, Debug, PartialEq, Eq, Structural)]
pub struct QueuedMarketInit {
    pub config: MarketConfig,
    pub unlock_time: u64,
}

/// Running totals of one market.
#[derive(Clone, Copy, Debug, PartialEq, Eq, Structural)]
pub struct MarketData {
    pub long_collateral: i128,
    pub long_notional_size: i128,
    pub short_collateral: i128,
    pub short_notional_size: i128,
    /// Cumulative interest factor of the long side, at `SCALAR_18`.
    pub long_interest_index: i128,
    /// Cumulative interest factor of the short side, at `SCALAR_18`.
    pub short_interest_index: i128,
    pub last_update: u64,
}

#[derive(Clone, Copy, Debug, PartialEq, Eq, Structural)]
pub struct Position {
    pub id: u32,
    pub user: AccountId,
    pub status: PositionStatus,
    pub asset: AssetId,
    pub is_long: bool,
    /// Zero when unset.
    pub stop_loss: i128,
    /// Zero when unset.
    pub take_profit: i128,
    pub entry_price: i128,
    pub collateral: i128,
    pub notional_size: i128,
    /// The side's interest index when the position was opened or its
    /// collateral last changed.
    pub interest_index: i128,
    pub created_at: u64,
    /// The base fee that a limit order paid in and that is kept for it
    /// while it is pending; zero for any other position.
    pub held_base_fee: i128,
    /// The price impact that a limit order paid in and that is kept for it
    /// while it is pending; zero for any other position.
    pub held_price_impact: i128,
}

/// The settings of a typical market, for trying the engine out.
pub fn default_market() -> (m: MarketConfig)
    ensures
        m == (MarketConfig {
            enabled: true,
            max_payout: 100_000_000,
            min_collateral: 10_000_000,
            max_collateral: 10_000_000_000_000,
            init_margin: 100_000,
            maintenance_margin: 50_000,
            base_fee: 5_000,
            price_impact_scalar: 80_000_000_000_000_000,
            base_hourly_rate: 10_000_000_000_000,
        }),
{
    MarketConfig {
        enabled: true,
        max_payout: 10 * SCALAR_7,
        min_collateral: SCALAR_7,
        max_collateral: 1_000_000 * SCALAR_7,
        init_margin: 100_000,
        maintenance_margin: 50_000,
        base_fee: 5_000,
        price_impact_scalar: 8_000_000_000 * SCALAR_7,
        base_hourly_rate: 10_000_000_000_000,
    }
}

} // verus!
