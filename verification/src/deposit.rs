//! Accepting a contribution into the pool's vault.

use vstd::prelude::*;

use crate::state::AccountId;
use crate::state::ConsistencyError;
use crate::state::PoolAccount;
use crate::state::TransferAuthority;
use crate::state::TransferOrder;

verus! {

/// The accounts a deposit touches: the depositor, their token account, the
/// pool's vault, and the Pool Record being updated.
#[derive(Clone, Copy, PartialEq, Eq, Structural, Debug)]
pub struct Deposit {
    pub user: AccountId,
    pub usdc_mint: AccountId,
    pub user_token_account: AccountId,
    pub vault: AccountId,
    pub pool_account: PoolAccount,
}

impl Deposit {
    /// The transfer an accepted deposit asks of the external rail: `amount`
    /// of the settlement asset from the depositor's own token account into
    /// the vault, authorized by the depositor themself.
    pub open spec fn deposit_order(self, amount: u64) -> TransferOrder {
        TransferOrder {
            mint: self.usdc_mint,
            from: self.user_token_account,
            to: self.vault,
            amount,
            authority: TransferAuthority::Account(self.user),
        }
    }

    /// Accepts a contribution of `amount`: rejects anything under the
    /// configured minimum, adds the amount to `total_deposited` by checked
    /// addition, and returns the transfer the host must perform. Validation
    /// precedes every mutation, so a rejection leaves the record unchanged.
    pub fn deposit(&mut self, amount: u64) -> (r: Result<TransferOrder, ConsistencyError>)
        ensures
            r is Ok <==> (amount >= old(self).pool_account.min_deposit && old(
                self,
            ).pool_account.total_deposited + amount <= u64::MAX),
            amount < old(self).pool_account.min_deposit ==> r == Err::<
                TransferOrder,
                ConsistencyError,
            >(ConsistencyError::DepositTooSmall),
            amount >= old(self).pool_account.min_deposit && old(self).pool_account.total_deposited
                + amount > u64::MAX ==> r == Err::<TransferOrder, ConsistencyError>(
                ConsistencyError::Overflow,
            ),
            r is Err ==> *final(self) == *old(self),
            r is Ok ==> r == Ok::<TransferOrder, ConsistencyError>(old(self).deposit_order(amount))
                && *final(self) == (Deposit {
                pool_account: old(self).pool_account.with_total_deposited(
                    (old(self).pool_account.total_deposited + amount) as u64,
                ),
                ..*old(self)
            }),
    {
        if amount < self.pool_account.min_deposit {
            return Err(ConsistencyError::DepositTooSmall);
        }
        if amount > u64::MAX - self.pool_account.total_deposited {
            return Err(ConsistencyError::Overflow);
        }
        let order = TransferOrder {
            mint: self.usdc_mint,
            from: self.user_token_account,
            to: self.vault,
            amount,
            authority: TransferAuthority::Account(self.user),
        };
        self.pool_account.total_deposited = self.pool_account.total_deposited + amount;
        Ok(order)
    }
}

} // verus!
