use vstd::prelude::*;

use crate::error::CustomError;
use crate::keys::Pubkey;
use crate::ledger::{first_index_of, space_spec, StakeInfo};
use crate::metadata::{decode_symbol, decoded_symbol};
use crate::reward::{reward_for, reward_spec};
use crate::whitelist::{is_whitelisted, symbol_whitelisted};

verus! {

/// Actions the host must perform to commit a successful stake: top up the
/// record's storage deposit by `deposit_top_up`, resize its storage region
/// to `new_space` bytes, and move one unit of the asset into custody.
#[derive(Clone, Copy, Debug, PartialEq, Eq, Structural)]
pub struct StakeActions {
    /// Shortfall between the storage-cost-exempt deposit the grown record
    /// needs and the balance it already holds.
    pub deposit_top_up: u64,
    /// Byte footprint of the grown record.
    pub new_space: usize,
}

/// Actions the host must perform to commit a successful unstake: return the
/// asset unit from custody, pay `reward` from the reward pool, and resize
/// the record's storage region to `new_space` bytes.
#[derive(Clone, Copy, Debug, PartialEq, Eq, Structural)]
pub struct UnstakeActions {
    /// Reward owed for the removed entry's elapsed accrual window.
    pub reward: u64,
    /// Byte footprint of the shrunk record.
    pub new_space: usize,
}

/// A decoded symbol passes the whitelist: the record decoded and its symbol
/// is on the allow-list.
pub open spec fn symbol_accepted(symbol: Option<Seq<char>>) -> bool {
    symbol matches Some(s) && is_whitelisted(s)
}

/// Deposit shortfall: what must be added to `balance` to reach `required`.
pub open spec fn shortfall(balance: u64, required: u64) -> int {
    if balance < required {
        required - balance
    } else {
        0
    }
}

/// The successful stake transition: ownership established for `caller` and
/// one entry appended to all three parallel fields.
pub open spec fn staked_record(
    pre: StakeInfo,
    post: StakeInfo,
    caller: Pubkey,
    collection: u8,
    mint: Pubkey,
    now: i64,
) -> bool {
    &&& post.owner == Some(caller)
    &&& post.collections@ == pre.collections@.push(collection)
    &&& post.mints@ == pre.mints@.push(mint)
    &&& post.staked_times@ == pre.staked_times@.push(now)
}

/// Stake one asset, with the collection symbol already decoded from the
/// asset's metadata record. Validates ownership, the whitelist and the
/// caller-supplied expected entry count, in that order; on success appends
/// `(collection, mint, now)` to the ledger and reports the commit actions.
/// On any failure the record is left untouched.
pub fn stake_with_symbol(
    account: &mut StakeInfo,
    caller: Pubkey,
    collection: u8,
    size: u64,
    mint: Pubkey,
    symbol: &String,
    now: i64,
    balance: u64,
    required_deposit: u64,
) -> (r: Result<StakeActions, CustomError>)
    requires
        old(account).wf(),
        0 <= now,
        space_spec(old(account).count() + 1) <= usize::MAX,
    ensures
        final(account).wf(),
        !old(account).owner_ok(caller) ==> r == Err::<StakeActions, CustomError>(
            CustomError::Unauthorized,
        ) && StakeInfo::same_record(*old(account), *final(account)),
        old(account).owner_ok(caller) && !is_whitelisted(symbol@) ==> r == Err::<
            StakeActions,
            CustomError,
        >(CustomError::IncorrectCollection) && StakeInfo::same_record(
            *old(account),
            *final(account),
        ),
        old(account).owner_ok(caller) && is_whitelisted(symbol@) && size != old(account).count()
            ==> r == Err::<StakeActions, CustomError>(CustomError::IncorrectSize)
            && StakeInfo::same_record(*old(account), *final(account)),
        old(account).owner_ok(caller) && is_whitelisted(symbol@) && size == old(account).count()
            ==> ({
            &&& r is Ok
            &&& staked_record(*old(account), *final(account), caller, collection, mint, now)
            &&& r->Ok_0.new_space == space_spec(old(account).count() + 1)
            &&& r->Ok_0.deposit_top_up == shortfall(balance, required_deposit)
        }),
{
    let owner_ok = match account.owner {
        None => true,
        Some(o) => o == caller,
    };
    if !owner_ok {
        return Err(CustomError::Unauthorized);
    }
    if !symbol_whitelisted(symbol) {
        return Err(CustomError::IncorrectCollection);
    }
    let count = account.mints.len();
    if size != count as u64 {
        return Err(CustomError::IncorrectSize);
    }
    match account.ensure_owner(caller) {
        Ok(()) => {},
        Err(e) => {
            return Err(e);
        },
    }
    account.add_stake(collection, mint, now);
    let new_space = StakeInfo::space(count + 1);
    let deposit_top_up = if balance < required_deposit {
        required_deposit - balance
    } else {
        0
    };
    Ok(StakeActions { deposit_top_up, new_space })
}

/// Stake one asset. Decodes the collection symbol from the asset's raw
/// metadata record; bytes that do not decode, or a symbol off the
/// allow-list, are rejected with `IncorrectCollection`. Otherwise behaves
/// as `stake_with_symbol` on the decoded symbol.
pub fn stake(
    account: &mut StakeInfo,
    caller: Pubkey,
    collection: u8,
    size: u64,
    mint: Pubkey,
    metadata_data: &[u8],
    now: i64,
    balance: u64,
    required_deposit: u64,
) -> (r: Result<StakeActions, CustomError>)
    requires
        old(account).wf(),
        0 <= now,
        space_spec(old(account).count() + 1) <= usize::MAX,
    ensures
        final(account).wf(),
        !old(account).owner_ok(caller) ==> r == Err::<StakeActions, CustomError>(
            CustomError::Unauthorized,
        ) && StakeInfo::same_record(*old(account), *final(account)),
        old(account).owner_ok(caller) && !symbol_accepted(decoded_symbol(metadata_data@)) ==> r
            == Err::<StakeActions, CustomError>(CustomError::IncorrectCollection)
            && StakeInfo::same_record(*old(account), *final(account)),
        old(account).owner_ok(caller) && symbol_accepted(decoded_symbol(metadata_data@)) && size
            != old(account).count() ==> r == Err::<StakeActions, CustomError>(
            CustomError::IncorrectSize,
        ) && StakeInfo::same_record(*old(account), *final(account)),
        old(account).owner_ok(caller) && symbol_accepted(decoded_symbol(metadata_data@)) && size
            == old(account).count() ==> ({
            &&& r is Ok
            &&& staked_record(*old(account), *final(account), caller, collection, mint, now)
            &&& r->Ok_0.new_space == space_spec(old(account).count() + 1)
            &&& r->Ok_0.deposit_top_up == shortfall(balance, required_deposit)
        }),
{
    let owner_ok = match account.owner {
        None => true,
        Some(o) => o == caller,
    };
    if !owner_ok {
        return Err(CustomError::Unauthorized);
    }
    match decode_symbol(metadata_data) {
        None => Err(CustomError::IncorrectCollection),
        Some(symbol) => stake_with_symbol(
            account,
            caller,
            collection,
            size,
            mint,
            &symbol,
            now,
            balance,
            required_deposit,
        ),
    }
}

/// Unstake one asset. The caller must be the established owner and the
/// asset must have an entry; the entry's accrued reward is paid out, the
/// entry removed from all three parallel fields (preserving the order of
/// the rest), and the record shrunk. On any failure the record is left
/// untouched.
pub fn unstake(account: &mut StakeInfo, caller: Pubkey, mint: Pubkey, now: i64) -> (r: Result<
    UnstakeActions,
    CustomError,
>)
    requires
        old(account).wf(),
        forall|i: int|
            0 <= i < old(account).staked_times@.len() ==> #[trigger] old(account).staked_times@[i]
                <= now && reward_spec(now - old(account).staked_times@[i]) <= u64::MAX,
        space_spec(old(account).count()) <= usize::MAX,
    ensures
        final(account).wf(),
        old(account).owner != Some(caller) ==> r == Err::<UnstakeActions, CustomError>(
            CustomError::Unauthorized,
        ) && StakeInfo::same_record(*old(account), *final(account)),
        old(account).owner == Some(caller) && first_index_of(old(account).mints@, mint) == -1 ==> r
            == Err::<UnstakeActions, CustomError>(CustomError::MintNotFound)
            && StakeInfo::same_record(*old(account), *final(account)),
        old(account).owner == Some(caller) && first_index_of(old(account).mints@, mint) >= 0 ==> ({
            let i = first_index_of(old(account).mints@, mint);
            &&& r is Ok
            &&& r->Ok_0.reward == reward_spec(now - old(account).staked_times@[i])
            &&& r->Ok_0.new_space == space_spec((old(account).count() - 1) as nat)
            &&& final(account).owner == old(account).owner
            &&& final(account).collections@ == old(account).collections@.remove(i)
            &&& final(account).mints@ == old(account).mints@.remove(i)
            &&& final(account).staked_times@ == old(account).staked_times@.remove(i)
        }),
{
    let owner_matches = match account.owner {
        Some(o) => o == caller,
        None => false,
    };
    if !owner_matches {
        return Err(CustomError::Unauthorized);
    }
    let index = match account.find_by_asset(mint) {
        Some(i) => i,
        None => {
            return Err(CustomError::MintNotFound);
        },
    };
    let staked_at = account.staked_times[index];
    let elapsed = now - staked_at;
    let reward = reward_for(elapsed as u64);
    account.remove_stake(index);
    let new_space = StakeInfo::space(account.mints.len());
    Ok(UnstakeActions { reward, new_space })
}

/// Every timestamp of `times` reset to the clock reading `now`.
pub open spec fn reset_times(times: Seq<i64>, now: i64) -> Seq<i64> {
    Seq::new(times.len(), |i: int| now)
}

/// The rewards a claim at clock reading `now` pays, one per entry.
pub open spec fn claim_payouts(times: Seq<i64>, now: i64) -> Seq<int> {
    Seq::new(times.len(), |i: int| reward_spec(now - times[i]))
}

/// Claim the accrued reward of every entry. The caller must be the
/// established owner; each entry's reward is computed from its stored
/// timestamp and the timestamp is reset to `now`, so the same interval is
/// never rewarded twice. The entry count never changes; with zero entries
/// the call trivially succeeds.
pub fn claim(account: &mut StakeInfo, caller: Pubkey, now: i64) -> (r: Result<
    Vec<u64>,
    CustomError,
>)
    requires
        old(account).wf(),
        0 <= now,
        forall|i: int|
            0 <= i < old(account).staked_times@.len() ==> #[trigger] old(account).staked_times@[i]
                <= now && reward_spec(now - old(account).staked_times@[i]) <= u64::MAX,
    ensures
        final(account).wf(),
        old(account).owner != Some(caller) ==> r == Err::<Vec<u64>, CustomError>(
            CustomError::Unauthorized,
        ) && StakeInfo::same_record(*old(account), *final(account)),
        old(account).owner == Some(caller) ==> ({
            &&& r is Ok
            &&& r->Ok_0@.len() == old(account).count()
            &&& forall|i: int|
                0 <= i < old(account).count() ==> #[trigger] r->Ok_0@[i] == claim_payouts(
                    old(account).staked_times@,
                    now,
                )[i]
            &&& final(account).owner == old(account).owner
            &&& final(account).collections@ == old(account).collections@
            &&& final(account).mints@ == old(account).mints@
            &&& final(account).staked_times@ == reset_times(old(account).staked_times@, now)
        }),
{
    let owner_matches = match account.owner {
        Some(o) => o == caller,
        None => false,
    };
    if !owner_matches {
        return Err(CustomError::Unauthorized);
    }
    let n = account.staked_times.len();
    let mut payouts: Vec<u64> = Vec::new();
    let mut i: usize = 0;
    while i < n
        invariant
            i <= n,
            n == account.staked_times@.len(),
            n == old(account).staked_times@.len(),
            0 <= now,
            account.owner == old(account).owner,
            account.collections@ == old(account).collections@,
            account.mints@ == old(account).mints@,
            forall|j: int|
                0 <= j < n ==> #[trigger] old(account).staked_times@[j] <= now && 0 <= old(
                    account,
                ).staked_times@[j] && reward_spec(now - old(account).staked_times@[j]) <= u64::MAX,
            forall|j: int| 0 <= j < i ==> #[trigger] account.staked_times@[j] == now,
            forall|j: int|
                i <= j < n ==> #[trigger] account.staked_times@[j] == old(
                    account,
                ).staked_times@[j],
            payouts@.len() == i,
            forall|j: int|
                0 <= j < i ==> #[trigger] payouts@[j] == reward_spec(
                    now - old(account).staked_times@[j],
                ),
        decreases n - i,
    {
        let staked_at = account.staked_times[i];
        let elapsed = now - staked_at;
        let tokens = reward_for(elapsed as u64);
        account.staked_times[i] = now;
        payouts.push(tokens);
        i = i + 1;
    }
    proof {
        assert(account.staked_times@ =~= reset_times(old(account).staked_times@, now));
        assert(account.wf());
    }
    Ok(payouts)
}

/// A successful stake performs exactly the `Add` step of the ledger's
/// step model on the record's parallel fields.
pub proof fn lemma_stake_is_add_step(
    pre: StakeInfo,
    post: StakeInfo,
    caller: Pubkey,
    collection: u8,
    mint: Pubkey,
    now: i64,
)
    requires
        staked_record(pre, post, caller, collection, mint, now),
    ensures
        post.fields() == crate::ledger::apply_step(
            pre.fields(),
            crate::ledger::LedgerStep::Add(collection, mint, now),
        ),
{
    assert(post.fields() =~= crate::ledger::apply_step(
        pre.fields(),
        crate::ledger::LedgerStep::Add(collection, mint, now),
    ));
}

/// A successful unstake performs exactly the `Remove` step of the ledger's
/// step model, at the removed entry's index.
pub proof fn lemma_unstake_is_remove_step(pre: StakeInfo, post: StakeInfo, i: int)
    requires
        0 <= i < pre.count(),
        post.collections@ == pre.collections@.remove(i),
        post.mints@ == pre.mints@.remove(i),
        post.staked_times@ == pre.staked_times@.remove(i),
    ensures
        post.fields() == crate::ledger::apply_step(
            pre.fields(),
            crate::ledger::LedgerStep::Remove(i),
        ),
{
    assert(post.fields() =~= crate::ledger::apply_step(
        pre.fields(),
        crate::ledger::LedgerStep::Remove(i),
    ));
}

/// A claim resets every entry's timestamp to the clock reading it paid out
/// at, so an immediate second claim at the same reading pays zero for every
/// entry.
pub proof fn lemma_second_claim_pays_nothing(times: Seq<i64>, now: i64)
    ensures
        forall|i: int|
            0 <= i < times.len() ==> #[trigger] claim_payouts(reset_times(times, now), now)[i]
                == 0,
{
    assert forall|i: int|
        0 <= i < times.len() implies #[trigger] claim_payouts(reset_times(times, now), now)[i]
        == 0 by {
        assert(reset_times(times, now)[i] == now);
        assert(reward_spec(now - now) == 0);
    }
}

} // verus!
