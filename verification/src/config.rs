use crate::constants::{MAX_UTILIZATION_CAP, SCALAR_18, SCALAR_7, SECONDS_PER_WEEK, STATUS_SETUP};
use crate::errors::TradingError;
use crate::market::Market;
use crate::types::{
    AssetId, ConfigUpdate, MarketConfig, MarketData, QueuedMarketInit, TradingConfig,
};
use vstd::prelude::*;

verus! {

/// The keeper's share is a fraction of one, and the utilization cap is
/// either off or between one and a hundred.
pub open spec fn valid_config(config: TradingConfig) -> bool {
    &&& 0 <= config.caller_take_rate <= SCALAR_7
    &&& (config.max_utilization == 0 || SCALAR_7 <= config.max_utilization
        <= MAX_UTILIZATION_CAP)
}

/// The rules that the settings of a market have to meet.
pub open spec fn valid_market_config(config: MarketConfig) -> bool {
    &&& config.min_collateral >= SCALAR_7
    &&& config.max_collateral > config.min_collateral
    &&& config.maintenance_margin > 0
    &&& config.init_margin >= config.maintenance_margin
    &&& config.base_fee >= 0
    &&& config.base_hourly_rate >= 0
    &&& config.price_impact_scalar > 0
}

/// Accepts the engine-wide settings or fails with `InvalidConfig`.
pub fn require_valid_config(config: &TradingConfig) -> (r: Result<(), TradingError>)
    ensures
        r == (if valid_config(*config) {
            Ok::<(), TradingError>(())
        } else {
            Err(TradingError::InvalidConfig)
        }),
{
    if config.caller_take_rate < 0 || config.caller_take_rate > SCALAR_7 {
        return Err(TradingError::InvalidConfig);
    }
    if config.max_utilization != 0 && (config.max_utilization < SCALAR_7 || config.max_utilization
        > MAX_UTILIZATION_CAP) {
        return Err(TradingError::InvalidConfig);
    }
    Ok(())
}

/// Accepts the settings of a market or fails with `InvalidConfig`.
pub fn require_valid_market_config(config: &MarketConfig) -> (r: Result<(), TradingError>)
    ensures
        r == (if valid_market_config(*config) {
            Ok::<(), TradingError>(())
        } else {
            Err(TradingError::InvalidConfig)
        }),
{
    if config.min_collateral < SCALAR_7 || config.max_collateral <= config.min_collateral {
        return Err(TradingError::InvalidConfig);
    }
    if config.maintenance_margin <= 0 || config.init_margin < config.maintenance_margin {
        return Err(TradingError::InvalidConfig);
    }
    if config.base_fee < 0 || config.base_hourly_rate < 0 || config.price_impact_scalar <= 0 {
        return Err(TradingError::InvalidConfig);
    }
    Ok(())
}

/// How long a queued change waits: a week, or no time at all while the
/// engine is being set up.
pub open spec fn unlock_delay(status: u32) -> u64 {
    if status == STATUS_SETUP {
        0
    } else {
        SECONDS_PER_WEEK
    }
}

fn delay_for(status: u32) -> (r: u64)
    ensures
        r == unlock_delay(status),
{
    if status == STATUS_SETUP {
        0
    } else {
        SECONDS_PER_WEEK
    }
}

/// Sets the engine up: fails with `AlreadyInitialized` on a second call
/// and with `InvalidConfig` on settings that break the rules, else gives
/// the status that the engine starts in, `Setup`.
pub fn execute_initialize(initialized: bool, config: &TradingConfig) -> (r: Result<
    u32,
    TradingError,
>)
    ensures
        r == (if initialized {
            Err::<u32, TradingError>(TradingError::AlreadyInitialized)
        } else if !valid_config(*config) {
            Err(TradingError::InvalidConfig)
        } else {
            Ok(STATUS_SETUP)
        }),
{
    if initialized {
        return Err(TradingError::AlreadyInitialized);
    }
    match require_valid_config(config) {
        Err(error) => Err(error),
        Ok(_) => Ok(STATUS_SETUP),
    }
}

/// Queues new engine-wide settings at `now`. Settings that break the rules
/// fail with `InvalidConfig`; others unlock after the delay that the status
/// gives.
pub fn execute_queue_set_config(status: u32, config: &TradingConfig, now: u64) -> (r: Result<
    ConfigUpdate,
    TradingError,
>)
    requires
        now + SECONDS_PER_WEEK <= u64::MAX,
    ensures
        r == (if valid_config(*config) {
            Ok::<ConfigUpdate, TradingError>(
                ConfigUpdate { config: *config, unlock_time: (now + unlock_delay(status)) as u64 },
            )
        } else {
            Err(TradingError::InvalidConfig)
        }),
{
    match require_valid_config(config) {
        Err(error) => Err(error),
        Ok(_) => Ok(ConfigUpdate { config: *config, unlock_time: now + delay_for(status) }),
    }
}

/// Drops the queued settings; fails with `UpdateNotQueued` where there are
/// none.
pub fn execute_cancel_set_config(queued: Option<ConfigUpdate>) -> (r: Result<(), TradingError>)
    ensures
        r == (if queued.is_some() {
            Ok::<(), TradingError>(())
        } else {
            Err(TradingError::UpdateNotQueued)
        }),
{
    match queued {
        Some(_) => Ok(()),
        None => Err(TradingError::UpdateNotQueued),
    }
}

/// What applying the queued settings at `now` gives.
pub open spec fn applied_config(queued: Option<ConfigUpdate>, now: u64) -> Result<
    TradingConfig,
    TradingError,
> {
    match queued {
        None => Err(TradingError::UpdateNotQueued),
        Some(update) => if update.unlock_time > now {
            Err(TradingError::UpdateNotUnlocked)
        } else if !valid_config(update.config) {
            Err(TradingError::InvalidConfig)
        } else {
            Ok(update.config)
        },
    }
}

/// Applies the queued settings once their unlock time has come, and gives
/// the settings that now hold.
pub fn execute_set_config(queued: Option<ConfigUpdate>, now: u64) -> (r: Result<
    TradingConfig,
    TradingError,
>)
    ensures
        r == applied_config(queued, now),
{
    match queued {
        None => Err(TradingError::UpdateNotQueued),
        Some(update) => {
            if update.unlock_time > now {
                return Err(TradingError::UpdateNotUnlocked);
            }
            match require_valid_config(&update.config) {
                Err(error) => Err(error),
                Ok(_) => Ok(update.config),
            }
        },
    }
}

/// Queues the settings of a market at `now`, as `execute_queue_set_config`
/// does for the engine's.
pub fn execute_queue_set_market(status: u32, config: &MarketConfig, now: u64) -> (r: Result<
    QueuedMarketInit,
    TradingError,
>)
    requires
        now + SECONDS_PER_WEEK <= u64::MAX,
    ensures
        r == (if valid_market_config(*config) {
            Ok::<QueuedMarketInit, TradingError>(
                QueuedMarketInit {
                    config: *config,
                    unlock_time: (now + unlock_delay(status)) as u64,
                },
            )
        } else {
            Err(TradingError::InvalidConfig)
        }),
{
    match require_valid_market_config(config) {
        Err(error) => Err(error),
        Ok(_) => Ok(QueuedMarketInit { config: *config, unlock_time: now + delay_for(status) }),
    }
}

/// Drops a queued market; fails with `UpdateNotQueued` where there is
/// none.
pub fn execute_cancel_queued_market(queued: Option<QueuedMarketInit>) -> (r: Result<
    (),
    TradingError,
>)
    ensures
        r == (if queued.is_some() {
            Ok::<(), TradingError>(())
        } else {
            Err(TradingError::UpdateNotQueued)
        }),
{
    match queued {
        Some(_) => Ok(()),
        None => Err(TradingError::UpdateNotQueued),
    }
}

/// The totals of a market that starts at `now`: nothing open, both
/// indices at one.
pub open spec fn initial_market_data(now: u64) -> MarketData {
    MarketData {
        long_collateral: 0,
        long_notional_size: 0,
        short_collateral: 0,
        short_notional_size: 0,
        long_interest_index: SCALAR_18,
        short_interest_index: SCALAR_18,
        last_update: now,
    }
}

/// What activating the queued market of `asset` at `now` gives.
pub open spec fn activated_market(queued: Option<QueuedMarketInit>, asset: AssetId, now: u64) -> Result<
    Market,
    TradingError,
> {
    match queued {
        None => Err(TradingError::UpdateNotQueued),
        Some(init) => if init.unlock_time > now {
            Err(TradingError::UpdateNotUnlocked)
        } else {
            Ok(Market { asset, config: init.config, data: initial_market_data(now) })
        },
    }
}

/// Activates a queued market once its unlock time has come, and gives the
/// market with its starting totals.
pub fn execute_set_market(queued: Option<QueuedMarketInit>, asset: AssetId, now: u64) -> (r: Result<
    Market,
    TradingError,
>)
    ensures
        r == activated_market(queued, asset, now),
{
    match queued {
        None => Err(TradingError::UpdateNotQueued),
        Some(init) => {
            if init.unlock_time > now {
                return Err(TradingError::UpdateNotUnlocked);
            }
            Ok(
                Market {
                    asset,
                    config: init.config,
                    data: MarketData {
                        long_collateral: 0,
                        long_notional_size: 0,
                        short_collateral: 0,
                        short_notional_size: 0,
                        long_interest_index: SCALAR_18,
                        short_interest_index: SCALAR_18,
                        last_update: now,
                    },
                },
            )
        },
    }
}

} // verus!
