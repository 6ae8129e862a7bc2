//! Prices and vesting of a sale round.
use vstd::prelude::*;
use crate::arith::{clamp_u128, clamp_u64, sat_add_u128, sat_add_u64, sat_mul_u128, sat_sub_u128, sat_sub_u64};
use super::{Error, PaymentConfig, SaleMode, SaleRound, VestingConfig, VestingType};

verus! {

/// Price of a Dutch auction at block `now`: the start price until the start,
/// the end price from the end on, and in between the start price lowered in
/// proportion to the elapsed time (rounded towards the start price), never
/// below the end price.
pub open spec fn spec_dutch_price(start_price: u128, end_price: u128, start: u64, end: u64, now: u64) -> u128 {
    if now <= start {
        start_price
    } else if now >= end {
        end_price
    } else {
        let range = clamp_u128(start_price - end_price);
        let drop = range * (now - start) / ((end - start) as int);
        let current = clamp_u128(start_price - drop);
        if current > end_price { current } else { end_price }
    }
}

/// Dutch price of a round, or the configuration error when a price is missing.
pub open spec fn spec_round_dutch_price(round: SaleRound, now: u64) -> Result<u128, Error> {
    if round.dutch_start_price is None || round.dutch_end_price is None {
        Err(Error::InvalidDutchAuctionConfig)
    } else {
        Ok(spec_dutch_price(round.dutch_start_price->0, round.dutch_end_price->0, round.start_block, round.end_block, now))
    }
}

/// Price of `amount` tokens: the Dutch price in a Dutch auction, else the
/// option's price; an overflowing product is an error.
pub open spec fn spec_payment_amount(round: SaleRound, amount: u128, option: PaymentConfig, now: u64) -> Result<u128, Error> {
    let price = if round.mode is DutchAuction { spec_round_dutch_price(round, now) } else { Ok(option.price) };
    match price {
        Err(e) => Err(e),
        Ok(p) => if amount * p > u128::MAX { Err(Error::ArithmeticOverflow) } else { Ok((amount * p) as u128) },
    }
}

/// Tokens released at claim: all of them without vesting, else the initial share.
pub open spec fn spec_initial_unlock(vesting: VestingConfig, total: u128) -> u128 {
    if vesting.vesting_type is NoVesting {
        total
    } else {
        clamp_u128(total * vesting.initial_unlock_bps) / 10000
    }
}

/// Tokens of `total` vested by block `now` for a purchase at block `start`:
/// the initial share plus the rest in proportion to the time past the cliff
/// (counted in whole steps for a cliff schedule), everything once the schedule
/// is over; an error before the cliff.
pub open spec fn spec_vested(vesting: VestingConfig, total: u128, start: u64, now: u64) -> Result<u128, Error> {
    if vesting.vesting_type is NoVesting {
        Ok(total)
    } else {
        let cliff_end = clamp_u64(start + vesting.cliff_duration);
        if now < cliff_end {
            Err(Error::CliffNotReached)
        } else if now >= clamp_u64(start + vesting.total_duration) {
            Ok(total)
        } else {
            let vesting_duration = clamp_u64(vesting.total_duration - vesting.cliff_duration);
            let elapsed = (now - cliff_end) as u64;
            let initial_bps = vesting.initial_unlock_bps;
            let vesting_bps = clamp_u128(10000 - initial_bps);
            let vesting_amount = clamp_u128(total * vesting_bps) / 10000;
            let effective = if vesting.vesting_type is Cliff && vesting.unlock_interval > 0 {
                clamp_u128(elapsed / vesting.unlock_interval * vesting.unlock_interval)
            } else {
                elapsed as u128
            };
            let unlocked: int = if vesting_duration > 0 {
                (clamp_u128(vesting_amount * effective) as int) / (vesting_duration as int)
            } else {
                vesting_amount as int
            };
            let initial = clamp_u128(total * initial_bps) / 10000;
            Ok(clamp_u128(initial + unlocked))
        }
    }
}

/// Tokens that can be unlocked now: vested minus already unlocked.
pub open spec fn spec_unlockable(vesting: VestingConfig, total: u128, already: u128, start: u64, now: u64) -> Result<u128, Error> {
    match spec_vested(vesting, total, start, now) {
        Err(e) => Err(e),
        Ok(v) => Ok(clamp_u128(v - already)),
    }
}

/// Linear price of a Dutch auction between `start` and `end`.
fn dutch_price(start_price: u128, end_price: u128, start: u64, end: u64, now: u64) -> (r: u128)
    ensures
        r == spec_dutch_price(start_price, end_price, start, end, now),
{
    if now <= start {
        return start_price;
    }
    if now >= end {
        return end_price;
    }
    let total_duration: u128 = sat_sub_u64(end, start) as u128;
    let elapsed: u128 = sat_sub_u64(now, start) as u128;
    let price_range: u128 = sat_sub_u128(start_price, end_price);
    let quotient = price_range / total_duration;
    let remainder = price_range % total_duration;
    proof {
        let d = total_duration as int;
        let e = elapsed as int;
        let q = quotient as int;
        let m = remainder as int;
        let rg = price_range as int;
        assert(rg == q * d + m && 0 <= m < d) by (nonlinear_arith)
            requires
                d > 0,
                q == rg / d,
                m == rg % d,
        ;
        assert(q * e <= rg) by (nonlinear_arith)
            requires
                rg == q * d + m,
                0 <= m,
                0 <= e < d,
                q >= 0,
        ;
        assert(m * e < 0x1_0000_0000_0000_0000 * 0x1_0000_0000_0000_0000) by (nonlinear_arith)
            requires
                0 <= m < d,
                0 <= e < d,
                d <= 0xffff_ffff_ffff_ffff,
        ;
        assert(q * e + (m * e) / d == (rg * e) / d) by (nonlinear_arith)
            requires
                rg == q * d + m,
                d > 0,
                e >= 0,
                q >= 0,
                m >= 0,
        ;
        assert((rg * e) / d <= rg) by (nonlinear_arith)
            requires
                0 <= e < d,
                rg >= 0,
        ;
    }
    let qe = sat_mul_u128(quotient, elapsed);
    let me = sat_mul_u128(remainder, elapsed);
    let price_drop = sat_add_u128(qe, me / total_duration);
    let current_price = sat_sub_u128(start_price, price_drop);
    if current_price > end_price {
        current_price
    } else {
        end_price
    }
}

/// A Dutch price stays between the end and the start price when the start price is the higher.
pub proof fn lemma_dutch_price_bounded(start_price: u128, end_price: u128, start: u64, end: u64, now: u64)
    requires
        start_price >= end_price,
    ensures
        end_price <= spec_dutch_price(start_price, end_price, start, end, now) <= start_price,
{
    if start < now < end {
        let range = clamp_u128(start_price - end_price);
        assert(range * (now - start) / ((end - start) as int) >= 0) by (nonlinear_arith)
            requires
                range >= 0,
                now > start,
                end > start,
        ;
    }
}

/// A Dutch price never rises as time passes.
pub proof fn lemma_dutch_price_non_increasing(start_price: u128, end_price: u128, start: u64, end: u64, t1: u64, t2: u64)
    requires
        start_price >= end_price,
        t1 <= t2,
    ensures
        spec_dutch_price(start_price, end_price, start, end, t2) <= spec_dutch_price(start_price, end_price, start, end, t1),
{
    lemma_dutch_price_bounded(start_price, end_price, start, end, t1);
    lemma_dutch_price_bounded(start_price, end_price, start, end, t2);
    if start < t1 && t2 < end {
        let range = (start_price - end_price) as int;
        let d = (end - start) as int;
        assert(range * (t1 - start) / d <= range * (t2 - start) / d) by (nonlinear_arith)
            requires
                range >= 0,
                d > 0,
                0 < t1 - start <= t2 - start,
        ;
    }
}

/// Current Dutch price of a round.
pub fn calculate_dutch_price(round: &SaleRound, now: u64) -> (r: Result<u128, Error>)
    ensures
        r == spec_round_dutch_price(*round, now),
{
    let start_price = match round.dutch_start_price {
        Some(p) => p,
        None => return Err(Error::InvalidDutchAuctionConfig),
    };
    let end_price = match round.dutch_end_price {
        Some(p) => p,
        None => return Err(Error::InvalidDutchAuctionConfig),
    };
    Ok(dutch_price(start_price, end_price, round.start_block, round.end_block, now))
}

/// Price of `amount` tokens in a round.
pub fn calculate_payment_amount(round: &SaleRound, amount: u128, payment_option: &PaymentConfig, now: u64) -> (r: Result<u128, Error>)
    ensures
        r == spec_payment_amount(*round, amount, *payment_option, now),
{
    let price = if round.mode == SaleMode::DutchAuction {
        match calculate_dutch_price(round, now) {
            Ok(p) => p,
            Err(e) => return Err(e),
        }
    } else {
        payment_option.price
    };
    match amount.checked_mul(price) {
        Some(v) => Ok(v),
        None => Err(Error::ArithmeticOverflow),
    }
}

/// Tokens released when a subscriber claims.
pub fn calculate_initial_unlock(vesting: &VestingConfig, total: u128) -> (r: u128)
    ensures
        r == spec_initial_unlock(*vesting, total),
{
    if vesting.vesting_type == VestingType::NoVesting {
        return total;
    }
    sat_mul_u128(total, vesting.initial_unlock_bps as u128) / 10000
}

/// Tokens that can be unlocked at block `now`.
pub fn calculate_unlockable(vesting: &VestingConfig, total: u128, already_unlocked: u128, start: u64, now: u64) -> (r: Result<u128, Error>)
    ensures
        r == spec_unlockable(*vesting, total, already_unlocked, start, now),
{
    if vesting.vesting_type == VestingType::NoVesting {
        return Ok(sat_sub_u128(total, already_unlocked));
    }
    let cliff_end = sat_add_u64(start, vesting.cliff_duration);
    if now < cliff_end {
        return Err(Error::CliffNotReached);
    }
    let total_end = sat_add_u64(start, vesting.total_duration);
    if now >= total_end {
        return Ok(sat_sub_u128(total, already_unlocked));
    }
    let vesting_duration: u128 = sat_sub_u64(vesting.total_duration, vesting.cliff_duration) as u128;
    let elapsed: u128 = sat_sub_u64(now, cliff_end) as u128;
    let initial_bps: u128 = vesting.initial_unlock_bps as u128;
    let vesting_bps: u128 = sat_sub_u128(10000, initial_bps);
    let vesting_amount = sat_mul_u128(total, vesting_bps) / 10000;
    let effective_elapsed: u128 = if vesting.vesting_type == VestingType::Cliff {
        let interval: u128 = vesting.unlock_interval as u128;
        if interval > 0 {
            sat_mul_u128(elapsed / interval, interval)
        } else {
            elapsed
        }
    } else {
        elapsed
    };
    let unlocked_vesting = if vesting_duration > 0 {
        sat_mul_u128(vesting_amount, effective_elapsed) / vesting_duration
    } else {
        vesting_amount
    };
    let initial_amount = sat_mul_u128(total, initial_bps) / 10000;
    let total_unlockable = sat_add_u128(initial_amount, unlocked_vesting);
    Ok(sat_sub_u128(total_unlockable, already_unlocked))
}

/// With at most 10000 basis points, what vests never exceeds the purchase.
pub proof fn lemma_vested_bounded(vesting: VestingConfig, total: u128, start: u64, now: u64)
    requires
        vesting.initial_unlock_bps <= 10000,
        vesting.total_duration >= vesting.cliff_duration,
    ensures
        spec_vested(vesting, total, start, now) matches Ok(v) ==> v <= total,
{
    if !(vesting.vesting_type is NoVesting) {
        let cliff_end = clamp_u64(start + vesting.cliff_duration);
        if cliff_end <= now && now < clamp_u64(start + vesting.total_duration) {
            let vd = clamp_u64(vesting.total_duration - vesting.cliff_duration) as int;
            let elapsed = (now - cliff_end) as int;
            let ib = vesting.initial_unlock_bps as int;
            let vb = 10000 - ib;
            let t = total as int;
            assert(start + vesting.cliff_duration <= u64::MAX);
            assert(cliff_end == start + vesting.cliff_duration);
            assert(now < start + vesting.total_duration);
            assert(elapsed < vd);
            assert(0 <= t * vb) by (nonlinear_arith)
                requires
                    0 <= vb,
                    t >= 0,
            ;
            let va = (clamp_u128(t * vb) as int) / 10000;
            assert(va <= (t * vb) / 10000) by (nonlinear_arith)
                requires
                    clamp_u128(t * vb) <= t * vb,
                    va == (clamp_u128(t * vb) as int) / 10000,
                    clamp_u128(t * vb) >= 0,
            ;
            let eff = if vesting.vesting_type is Cliff && vesting.unlock_interval > 0 {
                let iv = vesting.unlock_interval as int;
                assert(elapsed / iv * iv <= elapsed) by (nonlinear_arith)
                    requires
                        iv > 0,
                        elapsed >= 0,
                ;
                assert(elapsed / iv * iv >= 0) by (nonlinear_arith)
                    requires
                        iv > 0,
                        elapsed >= 0,
                ;
                elapsed / iv * iv
            } else {
                elapsed
            };
            assert(va >= 0);
            assert(va * eff <= va * vd) by (nonlinear_arith)
                requires
                    0 <= eff <= elapsed < vd,
                    va >= 0,
            ;
            assert(0 <= va * eff) by (nonlinear_arith)
                requires
                    0 <= eff,
                    va >= 0,
            ;
            let cv = clamp_u128(va * eff) as int;
            assert(cv / vd <= va) by (nonlinear_arith)
                requires
                    0 <= cv <= va * eff,
                    va * eff <= va * vd,
                    vd > 0,
            ;
            assert(t * ib >= 0) by (nonlinear_arith)
                requires
                    t >= 0,
                    ib >= 0,
            ;
            assert((t * ib) / 10000 + (t * vb) / 10000 <= t) by (nonlinear_arith)
                requires
                    t >= 0,
                    0 <= ib <= 10000,
                    vb == 10000 - ib,
            ;
            let ia = (clamp_u128(t * ib) as int) / 10000;
            assert(ia <= (t * ib) / 10000) by (nonlinear_arith)
                requires
                    clamp_u128(t * ib) <= t * ib,
                    ia == (clamp_u128(t * ib) as int) / 10000,
                    clamp_u128(t * ib) >= 0,
            ;
        }
    }
}

/// What an account can unlock never makes its unlocked total exceed its purchase.
pub proof fn lemma_unlockable_within_purchase(vesting: VestingConfig, total: u128, already: u128, start: u64, now: u64)
    requires
        vesting.initial_unlock_bps <= 10000,
        vesting.total_duration >= vesting.cliff_duration,
        already <= total,
    ensures
        spec_unlockable(vesting, total, already, start, now) matches Ok(u) ==> already + u <= total,
{
    lemma_vested_bounded(vesting, total, start, now);
}

/// Once vesting has begun, what has vested never falls as time goes on, and so
/// neither does what can be unlocked against a fixed unlocked amount.
pub proof fn lemma_unlockable_non_decreasing(vesting: VestingConfig, total: u128, already: u128, start: u64, now1: u64, now2: u64)
    requires
        vesting.initial_unlock_bps <= 10000,
        vesting.total_duration >= vesting.cliff_duration,
        now1 <= now2,
    ensures
        spec_vested(vesting, total, start, now1) matches Ok(v1) ==> (
            spec_vested(vesting, total, start, now2) matches Ok(v2) && v1 <= v2),
        spec_unlockable(vesting, total, already, start, now1) matches Ok(u1) ==> (
            spec_unlockable(vesting, total, already, start, now2) matches Ok(u2) && u1 <= u2),
{
    lemma_vested_bounded(vesting, total, start, now1);
    if !(vesting.vesting_type is NoVesting) {
        let cliff_end = clamp_u64(start + vesting.cliff_duration);
        let total_end = clamp_u64(start + vesting.total_duration);
        if cliff_end <= now1 && now2 < total_end {
            let vd = clamp_u64(vesting.total_duration - vesting.cliff_duration) as int;
            let e1 = (now1 - cliff_end) as int;
            let e2 = (now2 - cliff_end) as int;
            let ib = vesting.initial_unlock_bps;
            let va = (clamp_u128(total * clamp_u128(10000 - ib)) / 10000) as int;
            assert(e1 <= e2);
            let (f1, f2) = if vesting.vesting_type is Cliff && vesting.unlock_interval > 0 {
                let iv = vesting.unlock_interval as int;
                assert(e1 / iv <= e2 / iv) by (nonlinear_arith)
                    requires
                        iv > 0,
                        0 <= e1 <= e2,
                ;
                assert(e1 / iv * iv <= e2 / iv * iv) by (nonlinear_arith)
                    requires
                        iv > 0,
                        e1 / iv <= e2 / iv,
                ;
                assert(0 <= e1 / iv * iv <= e1) by (nonlinear_arith)
                    requires
                        iv > 0,
                        e1 >= 0,
                ;
                assert(0 <= e2 / iv * iv <= e2) by (nonlinear_arith)
                    requires
                        iv > 0,
                        e2 >= 0,
                ;
                (e1 / iv * iv, e2 / iv * iv)
            } else {
                (e1, e2)
            };
            assert(0 <= f1 <= f2);
            assert(va >= 0);
            assert(va * f1 <= va * f2) by (nonlinear_arith)
                requires
                    0 <= f1 <= f2,
                    va >= 0,
            ;
            assert(0 <= va * f1) by (nonlinear_arith)
                requires
                    0 <= f1,
                    va >= 0,
            ;
            if vd > 0 {
                let c1 = clamp_u128(va * f1) as int;
                let c2 = clamp_u128(va * f2) as int;
                assert(c1 <= c2);
                assert(c1 / vd <= c2 / vd) by (nonlinear_arith)
                    requires
                        0 <= c1 <= c2,
                        vd > 0,
                ;
            }
        }
    }
}

/// The Dutch price falls linearly over the window: strictly inside it, the
/// fall from the start price is the whole spread `start_price - end_price`
/// times the elapsed share of the window, rounded down; at and before the
/// start it is the start price, at and after the end the end price.
pub proof fn lemma_dutch_price_linear(start_price: u128, end_price: u128, start: u64, end: u64, now: u64)
    requires
        start_price >= end_price,
    ensures
        now <= start ==> spec_dutch_price(start_price, end_price, start, end, now) == start_price,
        now >= end && now > start ==> spec_dutch_price(start_price, end_price, start, end, now) == end_price,
        start < now < end ==> ({
            let fall = start_price - spec_dutch_price(start_price, end_price, start, end, now);
            let spread = start_price - end_price;
            let window = end - start;
            let elapsed = now - start;
            &&& fall * window <= spread * elapsed
            &&& spread * elapsed < (fall + 1) * window
        }),
{
    if start < now < end {
        let spread: int = start_price - end_price;
        let window: int = end - start;
        let elapsed: int = now - start;
        let q = spread * elapsed / window;
        assert(q * window <= spread * elapsed < (q + 1) * window) by (nonlinear_arith)
            requires
                window > 0,
                spread >= 0,
                elapsed >= 0,
                q == spread * elapsed / window,
        ;
        assert(0 <= q <= spread) by (nonlinear_arith)
            requires
                window > 0,
                spread >= 0,
                0 <= elapsed < window,
                q == spread * elapsed / window,
        ;
        assert(clamp_u128(start_price - end_price) == spread);
        assert(spec_dutch_price(start_price, end_price, start, end, now) == start_price - q);
    }
}

/// A linear (or custom) schedule vests continuously: how much has vested does
/// not depend on the unlock interval, which only steps a cliff schedule.
pub proof fn lemma_linear_vesting_ignores_interval(vesting: VestingConfig, total: u128, start: u64, now: u64, interval: u64)
    requires
        vesting.vesting_type is Linear || vesting.vesting_type is Custom,
    ensures
        spec_vested(vesting, total, start, now)
            == spec_vested(VestingConfig { unlock_interval: interval, ..vesting }, total, start, now),
{
}

/// Between the cliff and the end, a linear (or custom) schedule has vested the
/// initial share plus the rest of the purchase in proportion to the time past
/// the cliff over the vesting time, rounded down; stated where no product
/// overflows.
pub proof fn lemma_linear_vesting_proportional(vesting: VestingConfig, total: u128, start: u64, now: u64)
    requires
        vesting.vesting_type is Linear || vesting.vesting_type is Custom,
        vesting.initial_unlock_bps <= 10000,
        vesting.cliff_duration < vesting.total_duration,
        start + vesting.total_duration <= u64::MAX,
        start + vesting.cliff_duration <= now < start + vesting.total_duration,
        total * 10000 <= u128::MAX,
        total * vesting.total_duration <= u128::MAX,
    ensures
        spec_vested(vesting, total, start, now) matches Ok(v) && ({
            let initial = total * vesting.initial_unlock_bps / 10000;
            let rest = total * (10000 - vesting.initial_unlock_bps) / 10000;
            let vesting_time = vesting.total_duration - vesting.cliff_duration;
            let past_cliff = now - start - vesting.cliff_duration;
            &&& (v - initial) * vesting_time <= rest * past_cliff
            &&& rest * past_cliff < (v - initial + 1) * vesting_time
        }),
{
    let ib = vesting.initial_unlock_bps as int;
    let t = total as int;
    let vt = (vesting.total_duration - vesting.cliff_duration) as int;
    let pc = (now - start - vesting.cliff_duration) as int;
    assert(clamp_u64(start + vesting.cliff_duration) == start + vesting.cliff_duration);
    assert(clamp_u64(start + vesting.total_duration) == start + vesting.total_duration);
    assert(clamp_u64(vesting.total_duration - vesting.cliff_duration) == vt);
    assert(0 <= t * ib <= t * 10000) by (nonlinear_arith)
        requires
            0 <= ib <= 10000,
            t >= 0,
    ;
    assert(0 <= t * (10000 - ib) <= t * 10000) by (nonlinear_arith)
        requires
            0 <= ib <= 10000,
            t >= 0,
    ;
    assert(clamp_u128(10000 - ib) == 10000 - ib);
    assert(clamp_u128(t * ib) == t * ib);
    assert(clamp_u128(t * (10000 - ib)) == t * (10000 - ib));
    let rest = t * (10000 - ib) / 10000;
    let initial = t * ib / 10000;
    assert(0 <= rest <= t && 0 <= initial && initial + rest <= t) by (nonlinear_arith)
        requires
            0 <= ib <= 10000,
            t >= 0,
            rest == t * (10000 - ib) / 10000,
            initial == t * ib / 10000,
    ;
    assert(0 <= rest * pc <= t * vesting.total_duration) by (nonlinear_arith)
        requires
            0 <= rest <= t,
            0 <= pc < vt,
            vt <= vesting.total_duration,
    ;
    assert(clamp_u128(rest * pc) == rest * pc);
    let q = rest * pc / vt;
    assert(q * vt <= rest * pc < (q + 1) * vt && 0 <= q <= rest) by (nonlinear_arith)
        requires
            vt > 0,
            0 <= rest,
            0 <= pc < vt,
            q == rest * pc / vt,
    ;
    assert(clamp_u128(initial + q) == initial + q);
}

/// A cliff schedule with an unlock interval releases in whole steps: what has
/// vested at a block inside the schedule is what had vested at the start of the
/// interval that block falls in.
pub proof fn lemma_cliff_vesting_steps(vesting: VestingConfig, total: u128, start: u64, now: u64)
    requires
        vesting.vesting_type is Cliff,
        vesting.unlock_interval > 0,
        start + vesting.total_duration <= u64::MAX,
        vesting.cliff_duration <= vesting.total_duration,
        start + vesting.cliff_duration <= now < start + vesting.total_duration,
    ensures
        ({
            let cliff_end = start + vesting.cliff_duration;
            let step_start = cliff_end + (now - cliff_end) / (vesting.unlock_interval as int) * vesting.unlock_interval;
            &&& cliff_end <= step_start <= now
            &&& spec_vested(vesting, total, start, now) == spec_vested(vesting, total, start, step_start as u64)
        }),
{
    let cliff_end = (start + vesting.cliff_duration) as int;
    let iv = vesting.unlock_interval as int;
    let e = now - cliff_end;
    let k = e / iv;
    assert(0 <= k * iv <= e) by (nonlinear_arith)
        requires
            iv > 0,
            e >= 0,
            k == e / iv,
    ;
    assert((k * iv) / iv == k) by (nonlinear_arith)
        requires
            iv > 0,
            k >= 0,
    ;
    assert(clamp_u64(start + vesting.cliff_duration) == cliff_end);
    assert(clamp_u128(k * iv) == k * iv);
}

} // verus!
