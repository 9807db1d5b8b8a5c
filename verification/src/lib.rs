//! Verified core of an asset-staking ledger: per-owner records of staked
//! assets, storage sizing, collection whitelisting, and time-based reward
//! accrual. Chain plumbing (account contexts, token and deposit transfers,
//! storage resizing) lives outside this crate; the functions here validate,
//! decide and compute, on plain values, and report the actions the host
//! must perform.

mod error;
mod keys;
mod ledger;
mod metadata;
mod ops;
mod reward;
mod whitelist;

pub use error::CustomError;
pub use keys::Pubkey;
pub use ledger::{
    apply_step, apply_steps, first_index_of, lemma_first_index_of_spec,
    lemma_parallel_fields_aligned, num_adds, num_removes, space_spec, step_allowed, steps_allowed,
    LedgerFields, LedgerStep, StakeInfo,
};
pub use reward::{
    lemma_reward_monotonic, reward_for, reward_spec, REWARD_RATE_PER_DAY, SECONDS_PER_DAY,
};
pub use metadata::decoded_symbol;
pub use ops::{
    lemma_stake_is_add_step, lemma_unstake_is_remove_step,
    claim, claim_payouts, lemma_second_claim_pays_nothing, reset_times, shortfall, stake,
    stake_with_symbol, staked_record, symbol_accepted, unstake, StakeActions, UnstakeActions,
};
pub use whitelist::{is_whitelisted, symbol_whitelisted};
