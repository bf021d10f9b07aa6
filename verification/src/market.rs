use crate::constants::SCALAR_7;
use crate::fixed_point::{fits_i128, fixed_mul_floor, floor_div, mul_floor_ok};
use crate::interest::{
    calculate_long_short_hourly_rates, hourly_rates, hourly_rates_ok, index_after,
    index_after_ok, update_index_with_interest,
};
use crate::types::{AssetId, MarketConfig, MarketData};
use soroban_sdk::Env;
use vstd::prelude::*;

verus! {

/// One market: its asset, its settings and its running totals.
#[derive(Clone, Copy, Debug, PartialEq, Eq, Structural)]
pub struct Market {
    pub asset: AssetId,
    pub config: MarketConfig,
    pub data: MarketData,
}

/// The largest total notional that a market may carry against
/// `vault_assets`.
pub open spec fn utilization_limit(vault_assets: int, max_utilization: int) -> int {
    floor_div(vault_assets * max_utilization, SCALAR_7 as int)
}

impl Market {
    /// Total notional of one side.
    pub open spec fn side_notional(self, is_long: bool) -> int {
        if is_long {
            self.data.long_notional_size as int
        } else {
            self.data.short_notional_size as int
        }
    }

    /// Total collateral of one side.
    pub open spec fn side_collateral(self, is_long: bool) -> int {
        if is_long {
            self.data.long_collateral as int
        } else {
            self.data.short_collateral as int
        }
    }

    /// Cumulative interest index of one side.
    pub open spec fn side_index(self, is_long: bool) -> int {
        if is_long {
            self.data.long_interest_index as int
        } else {
            self.data.short_interest_index as int
        }
    }

    /// Seconds between the last refresh and `now`.
    pub open spec fn elapsed(self, now: u64) -> int {
        now as int - self.data.last_update as int
    }

    /// The hourly rates `(long, short)` that the market's present totals
    /// give.
    pub open spec fn rates(self) -> (int, int) {
        hourly_rates(
            self.config.base_hourly_rate as int,
            self.data.long_notional_size as int,
            self.data.short_notional_size as int,
        )
    }

    /// The market can be brought forward to `now`: the clock has not run
    /// backwards and the index arithmetic stays within 128 bits.
    pub open spec fn refresh_ok(self, now: u64) -> bool {
        &&& self.data.last_update <= now
        &&& self.elapsed(now) > 0 ==> {
            &&& hourly_rates_ok(
                self.config.base_hourly_rate as int,
                self.data.long_notional_size as int,
                self.data.short_notional_size as int,
            )
            &&& fits_i128(self.rates().0)
            &&& fits_i128(self.rates().1)
            &&& index_after_ok(
                self.data.long_interest_index as int,
                self.rates().0,
                self.elapsed(now),
            )
            &&& index_after_ok(
                self.data.short_interest_index as int,
                self.rates().1,
                self.elapsed(now),
            )
        }
    }

    /// The market brought forward to `now`: both indices advanced by the
    /// elapsed time at the present rates, everything else as it was.
    pub open spec fn refreshed(self, now: u64) -> Market {
        if self.elapsed(now) == 0 {
            self
        } else {
            Market {
                data: MarketData {
                    long_interest_index: index_after(
                        self.data.long_interest_index as int,
                        self.rates().0,
                        self.elapsed(now),
                    ) as i128,
                    short_interest_index: index_after(
                        self.data.short_interest_index as int,
                        self.rates().1,
                        self.elapsed(now),
                    ) as i128,
                    last_update: now,
                    ..self.data
                },
                ..self
            }
        }
    }

    /// Accrues interest on both sides up to `now`.
    pub fn update_borrowing_index(&mut self, e: &Env, now: u64)
        requires
            old(self).refresh_ok(now),
        ensures
            *final(self) == old(self).refreshed(now),
            final(self).fresh_at(now),
    {
        let elapsed = now - self.data.last_update;
        if elapsed == 0 {
            return;
        }
        let (long_rate, short_rate) = calculate_long_short_hourly_rates(
            e,
            self.config.base_hourly_rate,
            self.data.long_notional_size,
            self.data.short_notional_size,
        );
        let long_index = update_index_with_interest(
            e,
            self.data.long_interest_index,
            long_rate,
            elapsed as i128,
        );
        let short_index = update_index_with_interest(
            e,
            self.data.short_interest_index,
            short_rate,
            elapsed as i128,
        );
        self.data.long_interest_index = long_index;
        self.data.short_interest_index = short_index;
        self.data.last_update = now;
    }

    /// The totals of one side can take the two changes.
    pub open spec fn stats_ok(self, collateral: int, notional_size: int, is_long: bool) -> bool {
        &&& fits_i128(self.side_collateral(is_long) + collateral)
        &&& fits_i128(self.side_notional(is_long) + notional_size)
    }

    /// The market with the two changes added to one side's totals.
    pub open spec fn with_stats(self, collateral: int, notional_size: int, is_long: bool) -> Market {
        if is_long {
            Market {
                data: MarketData {
                    long_collateral: (self.data.long_collateral + collateral) as i128,
                    long_notional_size: (self.data.long_notional_size + notional_size) as i128,
                    ..self.data
                },
                ..self
            }
        } else {
            Market {
                data: MarketData {
                    short_collateral: (self.data.short_collateral + collateral) as i128,
                    short_notional_size: (self.data.short_notional_size + notional_size) as i128,
                    ..self.data
                },
                ..self
            }
        }
    }

    /// The market has been brought forward to `now`.
    pub open spec fn fresh_at(self, now: u64) -> bool {
        self.data.last_update == now
    }

    /// Adds the two signed changes to the totals of one side. The market
    /// has to be refreshed first, so that the positions counted in and out
    /// meet the interest indices of the present time.
    pub fn update_stats(
        &mut self,
        collateral: i128,
        notional_size: i128,
        is_long: bool,
        now: u64,
    )
        requires
            old(self).fresh_at(now),
            old(self).stats_ok(collateral as int, notional_size as int, is_long),
        ensures
            *final(self) == old(self).with_stats(collateral as int, notional_size as int, is_long),
    {
        if is_long {
            self.data.long_notional_size = self.data.long_notional_size + notional_size;
            self.data.long_collateral = self.data.long_collateral + collateral;
        } else {
            self.data.short_notional_size = self.data.short_notional_size + notional_size;
            self.data.short_collateral = self.data.short_collateral + collateral;
        }
    }

    /// Whether `collateral` lies within the market's bounds.
    pub fn is_position_valid(&self, collateral: i128) -> (r: bool)
        ensures
            r == (self.config.min_collateral <= collateral <= self.config.max_collateral),
    {
        collateral >= self.config.min_collateral && collateral <= self.config.max_collateral
    }

    /// Whether a further `notional_size` would take the market over the
    /// cap that `max_utilization` sets against the vault's assets.
    pub open spec fn over_utilization(
        self,
        vault_assets: int,
        max_utilization: int,
        notional_size: int,
    ) -> bool {
        max_utilization != 0 && self.data.long_notional_size + self.data.short_notional_size
            + notional_size > utilization_limit(vault_assets, max_utilization)
    }

    /// The utilization test can be computed in 128 bits.
    pub open spec fn utilization_ok(
        self,
        vault_assets: int,
        max_utilization: int,
        notional_size: int,
    ) -> bool {
        max_utilization != 0 ==> {
            &&& mul_floor_ok(vault_assets, max_utilization, SCALAR_7 as int)
            &&& fits_i128(self.data.long_notional_size + self.data.short_notional_size)
            &&& fits_i128(
                self.data.long_notional_size + self.data.short_notional_size + notional_size,
            )
        }
    }

    /// Tests the utilization cap for a position of `notional_size` that is
    /// about to be opened. A `max_utilization` of zero switches the cap off.
    pub fn exceeds_utilization(
        &self,
        e: &Env,
        vault_assets: i128,
        max_utilization: i128,
        notional_size: i128,
    ) -> (r: bool)
        requires
            self.utilization_ok(vault_assets as int, max_utilization as int, notional_size as int),
        ensures
            r == self.over_utilization(
                vault_assets as int,
                max_utilization as int,
                notional_size as int,
            ),
    {
        if max_utilization == 0 {
            return false;
        }
        let limit = fixed_mul_floor(e, vault_assets, max_utilization, SCALAR_7);
        let total = self.data.long_notional_size + self.data.short_notional_size + notional_size;
        total > limit
    }
}

} // verus!
