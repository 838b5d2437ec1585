//! Recording participant outcomes into the pool's aggregate tallies.

use vstd::prelude::*;

use crate::state::AccountId;
use crate::state::ConsistencyError;
use crate::state::PoolAccount;

verus! {

/// The accounts an outcome marking touches: the signer and the Pool Record.
#[derive(Clone, Copy, PartialEq, Eq, Structural, Debug)]
pub struct MarkStatus {
    pub user: AccountId,
    pub pool_account: PoolAccount,
}

impl MarkStatus {
    /// Records one outcome: a success raises `successful_count` by exactly
    /// one and leaves `failed_count` alone; a failure is the mirror image.
    /// Either addition is checked, and an overflow rejects the operation
    /// with the record unchanged.
    ///
    /// Nothing restricts who may call this or how often, so one participant
    /// can be counted more than once; the counters are aggregates only.
    pub fn mark_status(&mut self, succeeded: bool) -> (r: Result<(), ConsistencyError>)
        ensures
            r is Ok <==> (if succeeded {
                old(self).pool_account.successful_count < u64::MAX
            } else {
                old(self).pool_account.failed_count < u64::MAX
            }),
            r is Err ==> r == Err::<(), ConsistencyError>(ConsistencyError::Overflow)
                && *final(self) == *old(self),
            r is Ok && succeeded ==> *final(self) == (MarkStatus {
                pool_account: old(self).pool_account.with_successful_count(
                    (old(self).pool_account.successful_count + 1) as u64,
                ),
                ..*old(self)
            }),
            r is Ok && !succeeded ==> *final(self) == (MarkStatus {
                pool_account: old(self).pool_account.with_failed_count(
                    (old(self).pool_account.failed_count + 1) as u64,
                ),
                ..*old(self)
            }),
    {
        if succeeded {
            if self.pool_account.successful_count == u64::MAX {
                return Err(ConsistencyError::Overflow);
            }
            self.pool_account.successful_count = self.pool_account.successful_count + 1;
        } else {
            if self.pool_account.failed_count == u64::MAX {
                return Err(ConsistencyError::Overflow);
            }
            self.pool_account.failed_count = self.pool_account.failed_count + 1;
        }
        Ok(())
    }
}

} // verus!
