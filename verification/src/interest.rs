use crate::constants::{INTEREST_DISCOUNT, ONE_HOUR_SECONDS, SCALAR_18};
use crate::fixed_point::{fits_i128, fixed_div_floor, fixed_mul_floor, floor_div};
use soroban_sdk::Env;
use vstd::prelude::*;

verus! {

/// The credit that the lighter side earns per hour when the heavier side
/// pays `base`: eight tenths of `base`, rounded down.
pub open spec fn discounted_rate(base: int) -> int {
    floor_div(base * INTEREST_DISCOUNT as int, SCALAR_18 as int)
}

/// The heavier side's notional as a multiple of the lighter side's, at
/// `SCALAR_18`.
pub open spec fn imbalance_ratio(heavy: int, light: int) -> int {
    floor_div(heavy * SCALAR_18 as int, light)
}

/// What the heavier side pays per hour: `base` times the imbalance ratio.
pub open spec fn heavy_rate(base: int, heavy: int, light: int) -> int {
    floor_div(base * imbalance_ratio(heavy, light), SCALAR_18 as int)
}

/// The square of the imbalance ratio, at `SCALAR_18`.
pub open spec fn squared_ratio(heavy: int, light: int) -> int {
    floor_div(
        imbalance_ratio(heavy, light) * imbalance_ratio(heavy, light),
        SCALAR_18 as int,
    )
}

/// What the lighter side is credited per hour, as a positive number: the
/// discounted base rate times the squared imbalance ratio.
pub open spec fn light_credit(base: int, heavy: int, light: int) -> int {
    floor_div(discounted_rate(base) * squared_ratio(heavy, light), SCALAR_18 as int)
}

/// The signed hourly rates `(long, short)` for a market with the given
/// notional sizes. A positive rate charges the side, a negative one credits
/// it.
pub open spec fn hourly_rates(base: int, long: int, short: int) -> (int, int) {
    if long == 0 && short == 0 {
        (0, 0)
    } else if short == 0 {
        (base, -discounted_rate(base))
    } else if long == 0 {
        (-discounted_rate(base), base)
    } else if long == short {
        (base, base)
    } else if long > short {
        (heavy_rate(base, long, short), -light_credit(base, long, short))
    } else {
        (-light_credit(base, short, long), heavy_rate(base, short, long))
    }
}

/// The unequal two-sided case can be computed in 128 bits.
pub open spec fn imbalance_ok(base: int, heavy: int, light: int) -> bool {
    &&& fits_i128(imbalance_ratio(heavy, light))
    &&& fits_i128(squared_ratio(heavy, light))
    &&& fits_i128(heavy_rate(base, heavy, light))
    &&& fits_i128(discounted_rate(base))
    &&& fits_i128(light_credit(base, heavy, light))
    &&& fits_i128(-light_credit(base, heavy, light))
}

/// The inputs on which the hourly rates can be computed: notional sizes
/// are not negative, and no intermediate value leaves 128 bits.
pub open spec fn hourly_rates_ok(base: int, long: int, short: int) -> bool {
    &&& long >= 0
    &&& short >= 0
    &&& if long == 0 && short == 0 {
        true
    } else if short == 0 || long == 0 {
        fits_i128(discounted_rate(base)) && fits_i128(-discounted_rate(base))
    } else if long == short {
        true
    } else if long > short {
        imbalance_ok(base, long, short)
    } else {
        imbalance_ok(base, short, long)
    }
}

/// Rates of the unequal two-sided case: what the heavier side pays and what
/// the lighter side is credited.
fn imbalance_rates(e: &Env, base: i128, heavy: i128, light: i128) -> (r: (i128, i128))
    requires
        heavy > light > 0,
        imbalance_ok(base as int, heavy as int, light as int),
    ensures
        r.0 as int == heavy_rate(base as int, heavy as int, light as int),
        r.1 as int == -light_credit(base as int, heavy as int, light as int),
{
    let ratio = fixed_div_floor(e, heavy, light, SCALAR_18);
    let squared = fixed_mul_floor(e, ratio, ratio, SCALAR_18);
    let pays = fixed_mul_floor(e, base, ratio, SCALAR_18);
    let discounted = fixed_mul_floor(e, base, INTEREST_DISCOUNT, SCALAR_18);
    let credit = fixed_mul_floor(e, discounted, squared, SCALAR_18);
    (pays, -credit)
}

/// Derives the hourly interest rates of the long and the short side from
/// the base rate and the two notional sizes.
pub fn calculate_long_short_hourly_rates(
    e: &Env,
    base_hourly_rate: i128,
    long_notional: i128,
    short_notional: i128,
) -> (r: (i128, i128))
    requires
        hourly_rates_ok(base_hourly_rate as int, long_notional as int, short_notional as int),
    ensures
        (r.0 as int, r.1 as int) == hourly_rates(
            base_hourly_rate as int,
            long_notional as int,
            short_notional as int,
        ),
{
    if long_notional == 0 && short_notional == 0 {
        return (0, 0);
    }
    if short_notional == 0 {
        let credit = fixed_mul_floor(e, base_hourly_rate, INTEREST_DISCOUNT, SCALAR_18);
        return (base_hourly_rate, -credit);
    }
    if long_notional == 0 {
        let credit = fixed_mul_floor(e, base_hourly_rate, INTEREST_DISCOUNT, SCALAR_18);
        return (-credit, base_hourly_rate);
    }
    if long_notional == short_notional {
        return (base_hourly_rate, base_hourly_rate);
    }
    if long_notional > short_notional {
        imbalance_rates(e, base_hourly_rate, long_notional, short_notional)
    } else {
        let (short_rate, long_rate) = imbalance_rates(
            e,
            base_hourly_rate,
            short_notional,
            long_notional,
        );
        (long_rate, short_rate)
    }
}

/// The hourly rate brought down to one second, at `SCALAR_18`.
pub open spec fn rate_per_second(hourly_rate: int) -> int {
    floor_div(hourly_rate * SCALAR_18 as int, ONE_HOUR_SECONDS as int)
}

/// The rate accrued over `seconds`, at `SCALAR_18`.
pub open spec fn period_rate(hourly_rate: int, seconds: int) -> int {
    floor_div(rate_per_second(hourly_rate) * seconds, SCALAR_18 as int)
}

/// The index after `seconds` at `hourly_rate`: unchanged when no time has
/// passed, else multiplied by one plus the rate of the period.
pub open spec fn index_after(index: int, hourly_rate: int, seconds: int) -> int {
    if seconds <= 0 {
        index
    } else {
        floor_div(index * (SCALAR_18 as int + period_rate(hourly_rate, seconds)), SCALAR_18 as int)
    }
}

/// The index update can be computed in 128 bits.
pub open spec fn index_after_ok(index: int, hourly_rate: int, seconds: int) -> bool {
    seconds > 0 ==> {
        &&& fits_i128(rate_per_second(hourly_rate))
        &&& fits_i128(period_rate(hourly_rate, seconds))
        &&& fits_i128(SCALAR_18 as int + period_rate(hourly_rate, seconds))
        &&& fits_i128(index_after(index, hourly_rate, seconds))
    }
}

/// Advances one cumulative interest index by `seconds_elapsed` at
/// `hourly_rate`.
pub fn update_index_with_interest(
    e: &Env,
    current_index: i128,
    hourly_rate: i128,
    seconds_elapsed: i128,
) -> (r: i128)
    requires
        index_after_ok(current_index as int, hourly_rate as int, seconds_elapsed as int),
    ensures
        r as int == index_after(current_index as int, hourly_rate as int, seconds_elapsed as int),
{
    if seconds_elapsed <= 0 {
        return current_index;
    }
    let per_second = fixed_div_floor(e, hourly_rate, 3600, SCALAR_18);
    let period = fixed_mul_floor(e, per_second, seconds_elapsed, SCALAR_18);
    let growth = SCALAR_18 + period;
    fixed_mul_floor(e, current_index, growth, SCALAR_18)
}

/// With equal, non-empty sides both pay the same rate, the base rate.
pub proof fn lemma_balanced_rates(base: int, notional: int)
    requires
        notional > 0,
    ensures
        hourly_rates(base, notional, notional).0 == hourly_rates(base, notional, notional).1,
        hourly_rates(base, notional, notional).0 == base,
{
}

/// With one side empty, the other side pays the base rate and the empty
/// side is credited eight tenths of it.
pub proof fn lemma_one_sided_rates(base: int, notional: int)
    requires
        notional > 0,
    ensures
        hourly_rates(base, notional, 0) == (base, -discounted_rate(base)),
        hourly_rates(base, 0, notional) == (-discounted_rate(base), base),
        discounted_rate(base) == (base * 8) / 10,
{
    let d = INTEREST_DISCOUNT as int;
    let s = SCALAR_18 as int;
    let q = (base * 8) / 10;
    let r = (base * 8) % 10;
    vstd::arithmetic::div_mod::lemma_fundamental_div_mod(base * 8, 10);
    assert(base * d == q * s + r * 100_000_000_000_000_000) by (nonlinear_arith)
        requires
            d == 800_000_000_000_000_000,
            s == 1_000_000_000_000_000_000,
            base * 8 == 10 * q + r,
    ;
    vstd::arithmetic::div_mod::lemma_fundamental_div_mod_converse(
        base * d,
        s,
        q,
        r * 100_000_000_000_000_000,
    );
}

} // verus!
