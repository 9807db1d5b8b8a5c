use vstd::prelude::*;
use vstd::arithmetic::div_mod::lemma_div_is_ordered;
use vstd::arithmetic::mul::lemma_mul_inequality;

verus! {

/// Emission rate: smallest reward-token units accrued per asset per day
/// (9 fractional decimal places).
pub const REWARD_RATE_PER_DAY: u64 = 5_000_000_000;

/// Length of the accrual day, in seconds.
pub const SECONDS_PER_DAY: u64 = 86400;

/// Reward owed for an elapsed accrual window of `elapsed` seconds:
/// `floor(elapsed * rate / seconds_per_day)`.
pub open spec fn reward_spec(elapsed: int) -> int {
    elapsed * (REWARD_RATE_PER_DAY as int) / (SECONDS_PER_DAY as int)
}

/// Reward accrual function. The product is widened to 128 bits before the
/// division, so the formula is exact for any elapsed window whose reward
/// fits the token amount.
pub fn reward_for(elapsed: u64) -> (r: u64)
    requires
        reward_spec(elapsed as int) <= u64::MAX,
    ensures
        r == reward_spec(elapsed as int),
{
    proof {
        assert((elapsed as int) * (REWARD_RATE_PER_DAY as int) <= (u64::MAX as int) * (
        REWARD_RATE_PER_DAY as int)) by {
            lemma_mul_inequality(elapsed as int, u64::MAX as int, REWARD_RATE_PER_DAY as int);
        }
    }
    let wide: u128 = (elapsed as u128) * (REWARD_RATE_PER_DAY as u128);
    let q: u128 = wide / (SECONDS_PER_DAY as u128);
    q as u64
}

/// For a fixed rate, the reward is monotonically non-decreasing in the
/// elapsed accrual window.
pub proof fn lemma_reward_monotonic(e1: int, e2: int)
    requires
        0 <= e1 <= e2,
    ensures
        reward_spec(e1) <= reward_spec(e2),
{
    lemma_mul_inequality(e1, e2, REWARD_RATE_PER_DAY as int);
    lemma_div_is_ordered(
        e1 * REWARD_RATE_PER_DAY,
        e2 * REWARD_RATE_PER_DAY,
        SECONDS_PER_DAY as int,
    );
}

} // verus!
