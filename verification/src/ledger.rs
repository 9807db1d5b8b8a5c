use vstd::prelude::*;

use crate::error::CustomError;
use crate::keys::Pubkey;

verus! {

/// Byte footprint of a ledger record holding `n` entries: an 8-byte
/// discriminator, a 32-byte owner id, and three length-prefixed parallel
/// sequences (1-byte tag, 32-byte asset id, 8-byte timestamp per entry).
pub open spec fn space_spec(n: nat) -> nat {
    8 + 32 + (4 + n) + (4 + n * 32) + (4 + n * 8)
}

/// First index at which `key` occurs in `s`, or -1 when it does not occur.
pub open spec fn first_index_of(s: Seq<Pubkey>, key: Pubkey) -> int
    decreases s.len(),
{
    if s.len() == 0 {
        -1
    } else if s[0] == key {
        0
    } else {
        let rest = first_index_of(s.skip(1), key);
        if rest < 0 {
            -1
        } else {
            rest + 1
        }
    }
}

/// Per-owner staking ledger: one entry per currently-staked asset, kept in
/// three index-aligned parallel fields. Index `i` always describes the same
/// asset across all three.
pub struct StakeInfo {
    /// Controlling account; `None` until the first successful stake.
    pub owner: Option<Pubkey>,
    /// Collection tag of each staked asset.
    pub collections: Vec<u8>,
    /// Asset identifier of each staked asset.
    pub mints: Vec<Pubkey>,
    /// Clock reading recorded when each asset was staked (or last claimed).
    pub staked_times: Vec<i64>,
}

impl StakeInfo {
    /// Well-formedness: the three parallel fields have equal length and every
    /// recorded stake time is a non-negative clock reading.
    pub open spec fn wf(self) -> bool {
        &&& self.collections@.len() == self.mints@.len()
        &&& self.staked_times@.len() == self.mints@.len()
        &&& forall|i: int| 0 <= i < self.staked_times@.len() ==> 0 <= #[trigger] self.staked_times@[i]
    }

    /// Number of currently-staked assets.
    pub open spec fn count(self) -> nat {
        self.mints@.len()
    }

    /// True when `caller` may mutate this record: the owner is not yet
    /// established, or `caller` is the established owner.
    pub open spec fn owner_ok(self, caller: Pubkey) -> bool {
        self.owner is None || self.owner == Some(caller)
    }

    /// True when `post` holds exactly the same record as `pre`.
    pub open spec fn same_record(pre: StakeInfo, post: StakeInfo) -> bool {
        &&& post.owner == pre.owner
        &&& post.collections@ == pre.collections@
        &&& post.mints@ == pre.mints@
        &&& post.staked_times@ == pre.staked_times@
    }

    /// An empty record with no established owner.
    pub fn new() -> (r: StakeInfo)
        ensures
            r.wf(),
            r.count() == 0,
            r.owner is None,
    {
        StakeInfo { owner: None, collections: Vec::new(), mints: Vec::new(), staked_times: Vec::new() }
    }

    /// Establish or check ownership: an unset owner is set to `caller`; an
    /// established owner must equal `caller`, else `Unauthorized`.
    pub fn ensure_owner(&mut self, caller: Pubkey) -> (r: Result<(), CustomError>)
        ensures
            final(self).collections@ == old(self).collections@,
            final(self).mints@ == old(self).mints@,
            final(self).staked_times@ == old(self).staked_times@,
            old(self).owner_ok(caller) ==> r is Ok && final(self).owner == Some(caller),
            !old(self).owner_ok(caller) ==> r == Err::<(), CustomError>(CustomError::Unauthorized)
                && final(self).owner == old(self).owner,
    {
        match self.owner {
            None => {
                self.owner = Some(caller);
                Ok(())
            },
            Some(o) => {
                if o == caller {
                    Ok(())
                } else {
                    Err(CustomError::Unauthorized)
                }
            },
        }
    }

    /// Append one entry to all three parallel fields.
    pub fn add_stake(&mut self, collection: u8, mint: Pubkey, staked_time: i64)
        requires
            old(self).wf(),
            0 <= staked_time,
        ensures
            final(self).wf(),
            final(self).owner == old(self).owner,
            final(self).collections@ == old(self).collections@.push(collection),
            final(self).mints@ == old(self).mints@.push(mint),
            final(self).staked_times@ == old(self).staked_times@.push(staked_time),
            final(self).count() == old(self).count() + 1,
    {
        self.collections.push(collection);
        self.mints.push(mint);
        self.staked_times.push(staked_time);
    }

    /// Remove the entry at `index` from all three parallel fields, keeping
    /// the relative order of the remaining entries.
    pub fn remove_stake(&mut self, index: usize)
        requires
            old(self).wf(),
            index < old(self).count(),
        ensures
            final(self).wf(),
            final(self).owner == old(self).owner,
            final(self).collections@ == old(self).collections@.remove(index as int),
            final(self).mints@ == old(self).mints@.remove(index as int),
            final(self).staked_times@ == old(self).staked_times@.remove(index as int),
            final(self).count() == old(self).count() - 1,
    {
        self.collections.remove(index);
        self.mints.remove(index);
        self.staked_times.remove(index);
        proof {
            assert forall|i: int| 0 <= i < self.staked_times@.len() implies 0 <= #[trigger] self.staked_times@[i] by {
                assert(self.staked_times@ == old(self).staked_times@.remove(index as int));
            }
        }
    }

    /// Linear scan for the entry holding `mint`: the first matching index,
    /// or `None` when the asset is not staked here.
    pub fn find_by_asset(&self, mint: Pubkey) -> (r: Option<usize>)
        ensures
            r matches Some(i) ==> i < self.count() && first_index_of(self.mints@, mint) == i,
            r is None ==> first_index_of(self.mints@, mint) == -1,
    {
        let n = self.mints.len();
        let mut j: usize = 0;
        while j < n
            invariant
                j <= n,
                n == self.mints@.len(),
                forall|i: int| 0 <= i < j ==> self.mints@[i] != mint,
            decreases n - j,
        {
            if self.mints[j] == mint {
                proof {
                    lemma_first_index_of_found(self.mints@, mint, j as int);
                }
                return Some(j);
            }
            j = j + 1;
        }
        proof {
            lemma_first_index_of_absent(self.mints@, mint);
        }
        None
    }

    /// Byte footprint of a record holding `num_stakes` entries. Used both to
    /// grow and to shrink an existing record.
    pub fn space(num_stakes: usize) -> (r: usize)
        requires
            space_spec(num_stakes as nat) <= usize::MAX,
        ensures
            r == space_spec(num_stakes as nat),
    {
        8 + 32 + (4 + num_stakes) + (4 + num_stakes * 32) + (4 + num_stakes * 8)
    }

    /// Byte footprint used when a brand-new record is first allocated:
    /// deliberately the same linear formula as `space`, so a record is sized
    /// identically whether it is created or resized.
    pub fn space_external(num_stakes: usize) -> (r: usize)
        requires
            space_spec(num_stakes as nat) <= usize::MAX,
        ensures
            r == space_spec(num_stakes as nat),
    {
        StakeInfo::space(num_stakes)
    }
}

/// The three parallel fields of a ledger record, as mathematical sequences.
#[verifier::ext_equal]
pub struct LedgerFields {
    pub collections: Seq<u8>,
    pub mints: Seq<Pubkey>,
    pub staked_times: Seq<i64>,
}

/// One ledger mutation: `Add` is the transition `add_stake` ensures, and
/// `Remove` the one `remove_stake` ensures.
pub enum LedgerStep {
    Add(u8, Pubkey, i64),
    Remove(int),
}

impl LedgerFields {
    /// Index alignment: the three parallel fields have equal length.
    pub open spec fn aligned(self) -> bool {
        self.collections.len() == self.mints.len() && self.staked_times.len() == self.mints.len()
    }
}

impl StakeInfo {
    /// The record's three parallel fields, as sequences.
    pub open spec fn fields(self) -> LedgerFields {
        LedgerFields {
            collections: self.collections@,
            mints: self.mints@,
            staked_times: self.staked_times@,
        }
    }
}

/// A step is allowed when any index it removes is in range.
pub open spec fn step_allowed(f: LedgerFields, step: LedgerStep) -> bool {
    match step {
        LedgerStep::Add(_, _, _) => true,
        LedgerStep::Remove(i) => 0 <= i < f.mints.len(),
    }
}

/// The fields after one step: an `Add` appends one entry to all three,
/// a `Remove` deletes the entry at its index from all three.
pub open spec fn apply_step(f: LedgerFields, step: LedgerStep) -> LedgerFields {
    match step {
        LedgerStep::Add(collection, mint, staked_time) => LedgerFields {
            collections: f.collections.push(collection),
            mints: f.mints.push(mint),
            staked_times: f.staked_times.push(staked_time),
        },
        LedgerStep::Remove(i) => LedgerFields {
            collections: f.collections.remove(i),
            mints: f.mints.remove(i),
            staked_times: f.staked_times.remove(i),
        },
    }
}

/// The fields after a whole sequence of steps, applied left to right.
pub open spec fn apply_steps(f: LedgerFields, steps: Seq<LedgerStep>) -> LedgerFields
    decreases steps.len(),
{
    if steps.len() == 0 {
        f
    } else {
        apply_steps(apply_step(f, steps[0]), steps.skip(1))
    }
}

/// Every step of the sequence is allowed in the state it meets.
pub open spec fn steps_allowed(f: LedgerFields, steps: Seq<LedgerStep>) -> bool
    decreases steps.len(),
{
    if steps.len() == 0 {
        true
    } else {
        step_allowed(f, steps[0]) && steps_allowed(apply_step(f, steps[0]), steps.skip(1))
    }
}

/// How many of the steps append an entry.
pub open spec fn num_adds(steps: Seq<LedgerStep>) -> int
    decreases steps.len(),
{
    if steps.len() == 0 {
        0
    } else {
        (if steps[0] is Add {
            1int
        } else {
            0int
        }) + num_adds(steps.skip(1))
    }
}

/// How many of the steps remove an entry.
pub open spec fn num_removes(steps: Seq<LedgerStep>) -> int
    decreases steps.len(),
{
    if steps.len() == 0 {
        0
    } else {
        (if steps[0] is Remove {
            1int
        } else {
            0int
        }) + num_removes(steps.skip(1))
    }
}

/// For any owner's record, after any allowed sequence of stakes and
/// unstakes the three parallel fields still have equal length, and that
/// length is the starting length plus the stakes issued minus the unstakes
/// completed.
pub proof fn lemma_parallel_fields_aligned(f: LedgerFields, steps: Seq<LedgerStep>)
    requires
        f.aligned(),
        steps_allowed(f, steps),
    ensures
        apply_steps(f, steps).aligned(),
        apply_steps(f, steps).mints.len() == f.mints.len() + num_adds(steps) - num_removes(steps),
    decreases steps.len(),
{
    if steps.len() == 0 {
    } else {
        lemma_parallel_fields_aligned(apply_step(f, steps[0]), steps.skip(1));
    }
}

/// If `s[j] == key` and no earlier index matches, then `j` is the first index.
proof fn lemma_first_index_of_found(s: Seq<Pubkey>, key: Pubkey, j: int)
    requires
        0 <= j < s.len(),
        s[j] == key,
        forall|i: int| 0 <= i < j ==> s[i] != key,
    ensures
        first_index_of(s, key) == j,
    decreases s.len(),
{
    if j == 0 {
    } else {
        lemma_first_index_of_found(s.skip(1), key, j - 1);
    }
}

/// If no index matches, the first index is -1.
proof fn lemma_first_index_of_absent(s: Seq<Pubkey>, key: Pubkey)
    requires
        forall|i: int| 0 <= i < s.len() ==> s[i] != key,
    ensures
        first_index_of(s, key) == -1,
    decreases s.len(),
{
    if s.len() == 0 {
    } else {
        lemma_first_index_of_absent(s.skip(1), key);
    }
}

/// The first index found is a genuine first occurrence: it holds `key` and
/// nothing before it does.
pub proof fn lemma_first_index_of_spec(s: Seq<Pubkey>, key: Pubkey)
    ensures
        first_index_of(s, key) == -1 || (0 <= first_index_of(s, key) < s.len()),
        first_index_of(s, key) >= 0 ==> s[first_index_of(s, key)] == key,
        forall|i: int| 0 <= i < first_index_of(s, key) ==> s[i] != key,
        first_index_of(s, key) == -1 ==> forall|i: int| 0 <= i < s.len() ==> s[i] != key,
    decreases s.len(),
{
    if s.len() == 0 {
    } else if s[0] == key {
    } else {
        lemma_first_index_of_spec(s.skip(1), key);
        let r = first_index_of(s.skip(1), key);
        if r >= 0 {
            assert forall|i: int| 0 <= i < r + 1 implies s[i] != key by {
                if i > 0 {
                    assert(s.skip(1)[i - 1] == s[i]);
                }
            }
        } else {
            assert forall|i: int| 0 <= i < s.len() implies s[i] != key by {
                if i > 0 {
                    assert(s.skip(1)[i - 1] == s[i]);
                }
            }
        }
    }
}

} // verus!
