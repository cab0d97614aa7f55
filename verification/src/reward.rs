//! Time-proportional rewards in fixed point.

use vstd::prelude::*;
use vstd::arithmetic::div_mod::lemma_div_is_ordered;
use crate::error::StakingError;

verus! {

/// The scale of `reward_rate`: a rate of 10^9 pays one unit per second per
/// staked unit.
pub const REWARD_SCALE: u64 = 1_000_000_000;

/// Reward accrued by `staked` units over `elapsed` seconds at `rate`,
/// rounded down.
pub open spec fn reward_due(elapsed: nat, staked: nat, rate: nat) -> nat {
    (elapsed * staked * rate) / (REWARD_SCALE as nat)
}

/// Seconds from `since` to `now`.
pub open spec fn seconds_between(since: i64, now: i64) -> nat
    recommends
        since <= now,
{
    (now - since) as nat
}

/// The product of two numbers of 64 bits fits in 128 bits.
proof fn product_fits(a: nat, b: nat)
    by (nonlinear_arith)
    requires
        a <= 0xffff_ffff_ffff_ffff,
        b <= 0xffff_ffff_ffff_ffff,
    ensures
        a * b <= 0xffff_ffff_ffff_ffff * 0xffff_ffff_ffff_ffff,
{
}

/// What the reward accrued from `since` to `now` comes to: a clock that
/// reads earlier than `since` is a fault, and so is a reward that does not
/// fit in 64 bits.
pub open spec fn reward_outcome(since: i64, now: i64, staked: u64, rate: u64) -> Result<
    u64,
    StakingError,
> {
    if now < since {
        Err(StakingError::TimeWentBackwards)
    } else if reward_due(seconds_between(since, now), staked as nat, rate as nat) > u64::MAX {
        Err(StakingError::Overflow)
    } else {
        Ok(reward_due(seconds_between(since, now), staked as nat, rate as nat) as u64)
    }
}

/// Computes the reward accrued from `since` to `now`. Fails with
/// `TimeWentBackwards` where `now` lies before `since`, and with `Overflow`
/// exactly where the reward does not fit in 64 bits.
pub fn pending_reward(since: i64, now: i64, staked: u64, rate: u64) -> (pending: Result<
    u64,
    StakingError,
>)
    ensures
        pending == reward_outcome(since, now, staked, rate),
{
    if now < since {
        return Err(StakingError::TimeWentBackwards);
    }
    let elapsed: u128 = (now as i128 - since as i128) as u128;
    proof {
        product_fits(elapsed as nat, staked as nat);
    }
    let weighted: u128 = elapsed * (staked as u128);
    let ghost exact: nat = elapsed as nat * staked as nat * rate as nat;
    assert(exact == weighted * rate);
    match weighted.checked_mul(rate as u128) {
        None => {
            proof {
                lemma_div_is_ordered(
                    0x1_0000_0000_0000_0000_0000_0000_0000_0000int,
                    exact as int,
                    1_000_000_000,
                );
            }
            Err(StakingError::Overflow)
        },
        Some(scaled) => {
            let due: u128 = scaled / (REWARD_SCALE as u128);
            if due > u64::MAX as u128 {
                Err(StakingError::Overflow)
            } else {
                Ok(due as u64)
            }
        },
    }
}

} // verus!
