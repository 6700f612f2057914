//! Reward accrual: yield at a fixed annual rate over elapsed time, in integer
//! arithmetic that rounds down.

use vstd::arithmetic::div_mod::lemma_div_is_ordered;
use vstd::prelude::*;

verus! {

/// Seconds in a year of 365 days.
pub const SECONDS_PER_YEAR: i64 = 31_536_000;

/// Basis points in one whole: a rate of 10_000 is 100%.
pub const BPS_PER_WHOLE: u16 = 10_000;

/// One reward unit is earned per this many unit-seconds at one basis point:
/// the seconds of a year times the basis points of one whole.
pub const ACCRUAL_DIVISOR: u128 = 315_360_000_000;

/// The divisor is the seconds of a year times the basis points of one whole.
pub proof fn lemma_accrual_divisor()
    ensures
        ACCRUAL_DIVISOR == SECONDS_PER_YEAR * BPS_PER_WHOLE,
{
}

/// The reward earned by `principal` over `elapsed` seconds at `rate_bps` basis
/// points a year, as an unbounded integer: nothing for an interval that is
/// empty or runs backwards, else the product scaled down and rounded down.
pub open spec fn accrued_exact(principal: int, elapsed: int, rate_bps: int) -> int {
    if elapsed <= 0 || principal <= 0 || rate_bps <= 0 {
        0
    } else {
        (principal * elapsed * rate_bps) / (ACCRUAL_DIVISOR as int)
    }
}

/// The reward as the ledger records it: [`accrued_exact`] where that fits in
/// 64 bits, and the largest balance where it does not. A reward is never
/// wrapped.
pub open spec fn accrued(principal: u64, elapsed: int, rate_bps: u16) -> u64 {
    let exact = accrued_exact(principal as int, elapsed, rate_bps as int);
    if exact > u64::MAX {
        u64::MAX
    } else {
        exact as u64
    }
}

/// The exact reward is never negative.
pub proof fn lemma_accrued_exact_nonnegative(principal: int, elapsed: int, rate_bps: int)
    ensures
        accrued_exact(principal, elapsed, rate_bps) >= 0,
{
    if !(elapsed <= 0 || principal <= 0 || rate_bps <= 0) {
        assert(principal * elapsed * rate_bps >= 0) by (nonlinear_arith)
            requires
                principal > 0,
                elapsed > 0,
                rate_bps > 0,
        ;
    }
}

/// The exact reward rounds in the protocol's favour: it never exceeds the
/// proportional share of the principal, and falls short of it by less than
/// one unit.
pub proof fn lemma_accrued_exact_rounds_down(principal: int, elapsed: int, rate_bps: int)
    requires
        principal > 0,
        elapsed > 0,
        rate_bps > 0,
    ensures
        accrued_exact(principal, elapsed, rate_bps) * ACCRUAL_DIVISOR <= principal * elapsed
            * rate_bps,
        principal * elapsed * rate_bps < (accrued_exact(principal, elapsed, rate_bps) + 1)
            * ACCRUAL_DIVISOR,
{
}

/// The exact reward does not decrease when the principal, the elapsed time or
/// the rate grows, whether one of them grows or several at once.
pub proof fn lemma_accrued_exact_monotonic(
    principal: int,
    elapsed: int,
    rate_bps: int,
    more_principal: int,
    more_elapsed: int,
    more_rate_bps: int,
)
    requires
        principal <= more_principal,
        elapsed <= more_elapsed,
        rate_bps <= more_rate_bps,
    ensures
        accrued_exact(principal, elapsed, rate_bps) <= accrued_exact(
            more_principal,
            more_elapsed,
            more_rate_bps,
        ),
{
    lemma_accrued_exact_nonnegative(more_principal, more_elapsed, more_rate_bps);
    if !(elapsed <= 0 || principal <= 0 || rate_bps <= 0) {
        assert(principal * elapsed * rate_bps <= more_principal * more_elapsed * more_rate_bps)
            by (nonlinear_arith)
            requires
                0 < principal <= more_principal,
                0 < elapsed <= more_elapsed,
                0 < rate_bps <= more_rate_bps,
        ;
        lemma_div_is_ordered(
            principal * elapsed * rate_bps,
            more_principal * more_elapsed * more_rate_bps,
            ACCRUAL_DIVISOR as int,
        );
    }
}

/// The recorded reward does not decrease when the principal, the elapsed time
/// or the rate grows, whether one of them grows or several at once.
pub proof fn lemma_accrued_monotonic(
    principal: u64,
    elapsed: int,
    rate_bps: u16,
    more_principal: u64,
    more_elapsed: int,
    more_rate_bps: u16,
)
    requires
        principal <= more_principal,
        elapsed <= more_elapsed,
        rate_bps <= more_rate_bps,
    ensures
        accrued(principal, elapsed, rate_bps) <= accrued(more_principal, more_elapsed, more_rate_bps),
{
    lemma_accrued_exact_nonnegative(principal as int, elapsed, rate_bps as int);
    lemma_accrued_exact_monotonic(
        principal as int,
        elapsed,
        rate_bps as int,
        more_principal as int,
        more_elapsed,
        more_rate_bps as int,
    );
}

/// Splitting `weighted` by the divisor before scaling by `rate` gives the same
/// quotient as scaling first.
proof fn lemma_split_quotient(weighted: int, rate: int)
    requires
        0 <= weighted,
        0 <= rate,
    ensures
        (weighted * rate) / (ACCRUAL_DIVISOR as int) == (weighted / (ACCRUAL_DIVISOR as int)) * rate
            + ((weighted % (ACCRUAL_DIVISOR as int)) * rate) / (ACCRUAL_DIVISOR as int),
{
    let d = ACCRUAL_DIVISOR as int;
    let whole = weighted / d;
    let rest = weighted % d;
    let scaled_whole = whole * rate;
    let scaled_rest = rest * rate;
    assert(weighted * rate == scaled_whole * d + scaled_rest) by (nonlinear_arith)
        requires
            weighted == whole * d + rest,
            scaled_whole == whole * rate,
            scaled_rest == rest * rate,
    ;
    assert(scaled_whole * d == scaled_whole * 315_360_000_000);
}

/// The reward for an interval given by its length in seconds, which may be
/// longer than a signed 64-bit count can say. The product is taken in full
/// width, and a reward above the largest balance is held at it.
pub fn calc_rewards_over(staked_amount: u64, elapsed_seconds: u64, apr_bps: u16) -> (reward: u64)
    ensures
        reward == accrued(staked_amount, elapsed_seconds as int, apr_bps),
{
    if elapsed_seconds == 0 || staked_amount == 0 || apr_bps == 0 {
        return 0;
    }
    let rate: u128 = apr_bps as u128;
    assert(staked_amount * elapsed_seconds <= 0xffff_ffff_ffff_ffff * 0xffff_ffff_ffff_ffff)
        by (nonlinear_arith)
        requires
            0 <= staked_amount <= 0xffff_ffff_ffff_ffff,
            0 <= elapsed_seconds <= 0xffff_ffff_ffff_ffff,
    ;
    let weighted: u128 = (staked_amount as u128) * (elapsed_seconds as u128);
    let whole: u128 = weighted / ACCRUAL_DIVISOR;
    let rest: u128 = weighted % ACCRUAL_DIVISOR;
    assert(whole * rate <= 0x1_0000_0000_0000_0000_0000_0000 * 0xffff) by (nonlinear_arith)
        requires
            0 <= whole <= 0x1_0000_0000_0000_0000_0000_0000,
            0 <= rate <= 0xffff,
    ;
    assert(rest * rate <= 315_360_000_000 * 0xffff) by (nonlinear_arith)
        requires
            0 <= rest <= 315_360_000_000,
            0 <= rate <= 0xffff,
    ;
    let quotient: u128 = whole * rate + (rest * rate) / ACCRUAL_DIVISOR;
    proof {
        lemma_split_quotient(weighted as int, rate as int);
    }
    if quotient > 0xffff_ffff_ffff_ffff {
        u64::MAX
    } else {
        quotient as u64
    }
}

/// The reward earned by `staked_amount` over `elapsed_seconds` at `apr_bps`
/// basis points a year. An interval that is empty or runs backwards, no
/// principal or no rate earns nothing; a reward above the largest balance is
/// held at it.
pub fn calc_rewards(staked_amount: u64, elapsed_seconds: i64, apr_bps: u16) -> (reward: u64)
    ensures
        reward == accrued(staked_amount, elapsed_seconds as int, apr_bps),
        elapsed_seconds <= 0 || staked_amount == 0 || apr_bps == 0 ==> reward == 0,
        accrued_exact(staked_amount as int, elapsed_seconds as int, apr_bps as int) <= u64::MAX
            ==> reward == accrued_exact(
            staked_amount as int,
            elapsed_seconds as int,
            apr_bps as int,
        ),
        reward <= accrued_exact(staked_amount as int, elapsed_seconds as int, apr_bps as int),
{
    proof {
        lemma_accrued_exact_nonnegative(
            staked_amount as int,
            elapsed_seconds as int,
            apr_bps as int,
        );
    }
    if elapsed_seconds <= 0 {
        return 0;
    }
    calc_rewards_over(staked_amount, elapsed_seconds as u64, apr_bps)
}

/// The reward earned by `staked_amount` from the time `since` to the time
/// `now`, both in seconds, at `apr_bps` basis points a year.
pub fn calc_rewards_between(staked_amount: u64, since: i64, now: i64, apr_bps: u16) -> (reward: u64)
    ensures
        reward == accrued(staked_amount, now - since, apr_bps),
        now <= since ==> reward == 0,
{
    if now <= since {
        return 0;
    }
    let elapsed: i128 = (now as i128) - (since as i128);
    calc_rewards_over(staked_amount, elapsed as u64, apr_bps)
}

} // verus!
