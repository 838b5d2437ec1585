//! The keyed store of Pool Records: at most one record per owner identity,
//! created with insert-if-absent semantics.

use vstd::pervasive::VecAdditionalExecFns;
use vstd::prelude::*;

use crate::state::AccountId;
use crate::state::PoolAccount;

verus! {

/// All Pool Records of the system, keyed by their owner's identity. A
/// second creation attempt for an owner who already holds a record is a
/// collision and creates nothing.
pub struct PoolRegistry {
    pools: Vec<PoolAccount>,
}

impl PoolRegistry {
    /// The stored records, in order of creation.
    pub closed spec fn records(self) -> Seq<PoolAccount> {
        self.pools@
    }

    /// Well-formedness: every stored record is keyed by a distinct owner.
    pub open spec fn wf(self) -> bool {
        forall|i: int, j: int|
            0 <= i < j < self.records().len() ==> self.records()[i].owner
                != self.records()[j].owner
    }

    /// Whether some stored record belongs to `owner`.
    pub open spec fn has_owner(self, owner: AccountId) -> bool {
        exists|i: int| 0 <= i < self.records().len() && self.records()[i].owner == owner
    }

    /// An empty registry.
    pub fn new() -> (r: PoolRegistry)
        ensures
            r.wf(),
            r.records().len() == 0,
    {
        PoolRegistry { pools: Vec::new() }
    }

    /// The record belonging to `owner`, if one exists.
    pub fn lookup(&self, owner: AccountId) -> (r: Option<PoolAccount>)
        ensures
            r is Some <==> self.has_owner(owner),
            r matches Some(p) ==> self.records().contains(p) && p.owner == owner,
    {
        let mut i: usize = 0;
        while i < self.pools.len()
            invariant
                i <= self.pools.len(),
                forall|k: int| 0 <= k < i ==> self.records()[k].owner != owner,
            decreases self.pools.len() - i,
        {
            if self.pools[i].owner == owner {
                proof {
                    assert(self.records()[i as int].owner == owner);
                }
                return Some(self.pools[i]);
            }
            i = i + 1;
        }
        None
    }

    /// Creates the one Pool Record for `owner`: inserted only if absent,
    /// with configuration from the arguments and all running totals at
    /// zero. A collision — the owner already holds a record — returns
    /// `None` and stores nothing. The vault account, the wall-clock
    /// reading and the authority salt come from the surrounding host.
    pub fn create_pool(
        &mut self,
        owner: AccountId,
        usdc_mint: AccountId,
        vault: AccountId,
        consistency_period: u64,
        min_deposit: u64,
        start_time: u64,
        bump: u8,
    ) -> (r: Option<PoolAccount>)
        requires
            old(self).wf(),
        ensures
            final(self).wf(),
            old(self).has_owner(owner) ==> r is None && *final(self) == *old(self),
            !old(self).has_owner(owner) ==> (r matches Some(p) && p == (PoolAccount {
                owner,
                usdc_mint,
                vault,
                consistency_period,
                min_deposit,
                total_deposited: 0,
                successful_count: 0,
                failed_count: 0,
                start_time,
                bump,
            }) && final(self).records() == old(self).records().push(p)),
    {
        match self.lookup(owner) {
            Some(_) => None,
            None => {
                let record = PoolAccount {
                    owner,
                    usdc_mint,
                    vault,
                    consistency_period,
                    min_deposit,
                    total_deposited: 0,
                    successful_count: 0,
                    failed_count: 0,
                    start_time,
                    bump,
                };
                self.pools.push(record);
                proof {
                    assert forall|i: int, j: int|
                        0 <= i < j < self.records().len() implies self.records()[i].owner
                        != self.records()[j].owner by {
                        if j == self.records().len() - 1 {
                            assert(!(0 <= i < old(self).records().len() && old(
                                self,
                            ).records()[i].owner == owner));
                        }
                    }
                }
                Some(record)
            },
        }
    }

    /// Writes an updated record back over the stored one with the same
    /// owner, as the storage layer's in-place update after a deposit or an
    /// outcome marking. Every other record is untouched. Returns `false`
    /// and stores nothing when no record of that owner exists.
    pub fn update(&mut self, record: PoolAccount) -> (r: bool)
        requires
            old(self).wf(),
        ensures
            final(self).wf(),
            r <==> old(self).has_owner(record.owner),
            !r ==> *final(self) == *old(self),
            final(self).records().len() == old(self).records().len(),
            forall|i: int|
                0 <= i < old(self).records().len() && old(self).records()[i].owner != record.owner
                    ==> final(self).records()[i] == old(self).records()[i],
            r ==> forall|i: int|
                0 <= i < old(self).records().len() && old(self).records()[i].owner == record.owner
                    ==> final(self).records()[i] == record,
    {
        let mut i: usize = 0;
        while i < self.pools.len()
            invariant
                i <= self.pools.len(),
                old(self).wf(),
                *self == *old(self),
                forall|k: int| 0 <= k < i ==> self.records()[k].owner != record.owner,
            decreases self.pools.len() - i,
        {
            if self.pools[i].owner == record.owner {
                proof {
                    assert(self.records()[i as int].owner == record.owner);
                }
                self.pools.set(i, record);
                proof {
                    let prev = old(self).records();
                    let cur = self.records();
                    assert(cur == prev.update(i as int, record));
                    assert(forall|x: int|
                        0 <= x < cur.len() ==> #[trigger] cur[x].owner == prev[x].owner);
                    assert forall|a: int, b: int|
                        0 <= a < b < cur.len() implies cur[a].owner != cur[b].owner by {
                        assert(prev[a].owner != prev[b].owner);
                    }
                    assert forall|x: int|
                        0 <= x < prev.len() && prev[x].owner == record.owner implies cur[x]
                        == record by {
                        if x < i as int {
                            assert(prev[x].owner != prev[i as int].owner);
                        }
                        if (i as int) < x {
                            assert(prev[i as int].owner != prev[x].owner);
                        }
                    }
                }
                return true;
            }
            i = i + 1;
        }
        false
    }
}

/// Exactly one Pool Record per owner: in a well-formed registry, two
/// positions holding records with the same owner are the same position.
pub proof fn one_record_per_owner(r: PoolRegistry, i: int, j: int)
    requires
        r.wf(),
        0 <= i < r.records().len(),
        0 <= j < r.records().len(),
        r.records()[i].owner == r.records()[j].owner,
    ensures
        i == j,
{
    if i < j {
        assert(r.records()[i].owner != r.records()[j].owner);
    }
    if j < i {
        assert(r.records()[j].owner != r.records()[i].owner);
    }
}

} // verus!
