//! Creating a pool: populating a freshly allocated Pool Record.

use vstd::prelude::*;

use crate::state::AccountId;
use crate::state::ConsistencyError;
use crate::state::PoolAccount;

verus! {

/// The accounts pool creation touches: the owner, the settlement-asset
/// mint, the newly allocated vault, and the Pool Record being populated.
/// Allocating the record and the vault — and refusing a second record for
/// the same owner — is the surrounding storage layer's job.
#[derive(Clone, Copy, PartialEq, Eq, Structural, Debug)]
pub struct InitializePool {
    pub owner: AccountId,
    pub usdc_mint: AccountId,
    pub vault: AccountId,
    pub pool_account: PoolAccount,
}

impl InitializePool {
    /// The record a creation with these arguments must leave behind:
    /// configuration from the arguments, all running totals at zero.
    pub open spec fn initialized_record(
        self,
        consistency_period: u64,
        min_deposit: u64,
        start_time: u64,
        bump: u8,
    ) -> PoolAccount {
        PoolAccount {
            owner: self.owner,
            usdc_mint: self.usdc_mint,
            vault: self.vault,
            consistency_period,
            min_deposit,
            total_deposited: 0,
            successful_count: 0,
            failed_count: 0,
            start_time,
            bump,
        }
    }

    /// Populates the Pool Record: binds it to the owner, mint and vault,
    /// stores the configuration, and zeroes `total_deposited` and both
    /// outcome counters. The wall-clock reading `start_time` and the
    /// authority salt `bump` are computed by the surrounding host and
    /// handed in; the operation itself always succeeds.
    pub fn initialize(
        &mut self,
        consistency_period: u64,
        min_deposit: u64,
        start_time: u64,
        bump: u8,
    ) -> (r: Result<(), ConsistencyError>)
        ensures
            r == Ok::<(), ConsistencyError>(()),
            final(self).pool_account == old(self).initialized_record(
                consistency_period,
                min_deposit,
                start_time,
                bump,
            ),
            final(self).owner == old(self).owner,
            final(self).usdc_mint == old(self).usdc_mint,
            final(self).vault == old(self).vault,
    {
        self.pool_account = PoolAccount {
            owner: self.owner,
            usdc_mint: self.usdc_mint,
            vault: self.vault,
            consistency_period,
            min_deposit,
            total_deposited: 0,
            successful_count: 0,
            failed_count: 0,
            start_time,
            bump,
        };
        Ok(())
    }
}

} // verus!
