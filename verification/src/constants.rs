use vstd::prelude::*;

verus! {

/// Scale of prices, collateral, notional sizes, fees and ratios.
pub const SCALAR_7: i128 = 10_000_000;

/// Scale of interest indices and hourly rates.
pub const SCALAR_18: i128 = 1_000_000_000_000_000_000;

/// Share of the base rate that the lighter side is credited, at `SCALAR_18`.
pub const INTEREST_DISCOUNT: i128 = 800_000_000_000_000_000;

pub const ONE_HOUR_SECONDS: u64 = 3600;

pub const SECONDS_PER_WEEK: u64 = 604_800;

/// Oldest oracle price, in seconds, that is still accepted.
pub const MAX_PRICE_AGE: u64 = 300;

/// Upper end of a non-zero `max_utilization`: one hundred times `SCALAR_7`.
pub const MAX_UTILIZATION_CAP: i128 = 1_000_000_000;

pub const STATUS_ACTIVE: u32 = 0;

pub const STATUS_ON_ICE: u32 = 1;

pub const STATUS_FROZEN: u32 = 2;

pub const STATUS_SETUP: u32 = 99;

} // verus!
