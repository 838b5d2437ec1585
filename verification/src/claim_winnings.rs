//! Computing and authorizing the pro-rata payout from the vault.

use vstd::prelude::*;

use crate::state::checked_div;
use crate::state::AccountId;
use crate::state::ConsistencyError;
use crate::state::DerivedAuthority;
use crate::state::PoolAccount;
use crate::state::TransferAuthority;
use crate::state::TransferOrder;

verus! {

/// The accounts a claim touches: the claimant, their token account, the
/// vault being debited, and the Pool Record read as signing context.
#[derive(Clone, Copy, PartialEq, Eq, Structural, Debug)]
pub struct ClaimWinnings {
    pub user: AccountId,
    pub usdc_mint: AccountId,
    pub user_token_account: AccountId,
    pub vault: AccountId,
    pub pool_account: PoolAccount,
}

impl ClaimWinnings {
    /// The transfer a successful claim asks of the external rail: one
    /// pro-rata share from the vault to the claimant's token account,
    /// signed by the capability derived from the pool's owner and salt —
    /// the pool logic authorizes this debit, not the recipient.
    pub open spec fn claim_order(self) -> TransferOrder {
        TransferOrder {
            mint: self.usdc_mint,
            from: self.vault,
            to: self.user_token_account,
            amount: self.pool_account.payout_amount(),
            authority: TransferAuthority::Pool(
                DerivedAuthority { owner: self.pool_account.owner, salt: self.pool_account.bump },
            ),
        }
    }

    /// Computes `floor(total_deposited / successful_count)` and returns the
    /// authorized transfer of that amount out of the vault. Rejected with
    /// NoSuccessfulUsers when no success is recorded; the defensive
    /// zero-divisor guard behind that check can never fire. Any remainder
    /// of the division stays in the vault, unaccounted for.
    ///
    /// The Pool Record is left entirely unchanged: `total_deposited` is not
    /// reduced and no per-claimant mark is written, so the very same claim
    /// is admitted again immediately (see [`repeat_claim_unguarded`]).
    pub fn claim_winnings(&mut self) -> (r: Result<TransferOrder, ConsistencyError>)
        ensures
            *final(self) == *old(self),
            r is Ok <==> old(self).pool_account.successful_count > 0,
            old(self).pool_account.successful_count == 0 ==> r == Err::<
                TransferOrder,
                ConsistencyError,
            >(ConsistencyError::NoSuccessfulUsers),
            r is Ok ==> r == Ok::<TransferOrder, ConsistencyError>(old(self).claim_order()),
            r != Err::<TransferOrder, ConsistencyError>(ConsistencyError::InvalidCalculation),
    {
        if self.pool_account.successful_count == 0 {
            return Err(ConsistencyError::NoSuccessfulUsers);
        }
        let payout: u64 = match checked_div(
            self.pool_account.total_deposited,
            self.pool_account.successful_count,
        ) {
            Some(p) => p,
            None => {
                return Err(ConsistencyError::InvalidCalculation);
            },
        };
        Ok(
            TransferOrder {
                mint: self.usdc_mint,
                from: self.vault,
                to: self.user_token_account,
                amount: payout,
                authority: TransferAuthority::Pool(
                    DerivedAuthority {
                        owner: self.pool_account.owner,
                        salt: self.pool_account.bump,
                    },
                ),
            },
        )
    }
}

/// A successful claim leaves the Pool Record unchanged, so the identical
/// claim is admitted again and computes the identical payout: no guard in
/// the state prevents a repeat claim. Here `before` is the record a claim
/// succeeded on and `after` the record that claim left behind.
pub proof fn repeat_claim_unguarded(before: PoolAccount, after: PoolAccount)
    requires
        before.successful_count > 0,
        after == before,
    ensures
        after.successful_count > 0,
        after.payout_amount() == before.payout_amount(),
{
}

/// The payout is computed by integer division, and the remainder is never
/// accounted for or transferred anywhere: the shares paid to all successful
/// participants sum to at most `total_deposited`, and what they leave
/// behind is smaller than `successful_count`.
pub proof fn payout_strands_remainder(p: PoolAccount)
    requires
        p.successful_count > 0,
    ensures
        p.payout_amount() * p.successful_count <= p.total_deposited,
        p.total_deposited - p.payout_amount() * p.successful_count < p.successful_count,
{
    let total = p.total_deposited as int;
    let count = p.successful_count as int;
    vstd::arithmetic::div_mod::lemma_div_pos_is_pos(total, count);
    vstd::arithmetic::div_mod::lemma_div_nonincreasing(total, count);
    vstd::arithmetic::div_mod::lemma_fundamental_div_mod(total, count);
    vstd::arithmetic::div_mod::lemma_mod_bound(total, count);
    assert(p.payout_amount() == total / count);
}

} // verus!
