//! Accounting core of a pooled-custody fund.
//!
//! Depositors contribute a settlement asset into a shared vault, an outside
//! process marks participants as succeeded or failed, and the accumulated
//! funds are then paid out pro rata among the successful participants. This
//! crate holds the pool's state machine — deposit accounting, outcome
//! tallying, and payout computation under a derived custody authority. Value
//! transfer itself, identity checks and storage allocation are external
//! collaborators: each operation returns the [`state::TransferOrder`] the
//! surrounding host must hand to the transfer rail.

use vstd::prelude::*;

pub mod claim_winnings;
pub mod deposit;
pub mod initialize_pool;
pub mod mark_status;
pub mod registry;
pub mod state;

use crate::claim_winnings::ClaimWinnings;
use crate::deposit::Deposit;
use crate::initialize_pool::InitializePool;
use crate::mark_status::MarkStatus;
use crate::state::ConsistencyError;
use crate::state::TransferOrder;

verus! {

/// Populates a freshly allocated Pool Record; see
/// [`InitializePool::initialize`].
pub fn initialize_pool(
    ctx: &mut InitializePool,
    consistency_period: u64,
    min_deposit: u64,
    start_time: u64,
    bump: u8,
) -> (r: Result<(), ConsistencyError>)
    ensures
        r == Ok::<(), ConsistencyError>(()),
        final(ctx).pool_account == old(ctx).initialized_record(
            consistency_period,
            min_deposit,
            start_time,
            bump,
        ),
        final(ctx).owner == old(ctx).owner,
        final(ctx).usdc_mint == old(ctx).usdc_mint,
        final(ctx).vault == old(ctx).vault,
{
    ctx.initialize(consistency_period, min_deposit, start_time, bump)
}

/// Accepts a contribution into the pool; see [`Deposit::deposit`].
pub fn deposit(ctx: &mut Deposit, amount: u64) -> (r: Result<TransferOrder, ConsistencyError>)
    ensures
        r is Ok <==> (amount >= old(ctx).pool_account.min_deposit && old(
            ctx,
        ).pool_account.total_deposited + amount <= u64::MAX),
        amount < old(ctx).pool_account.min_deposit ==> r == Err::<TransferOrder, ConsistencyError>(
            ConsistencyError::DepositTooSmall,
        ),
        amount >= old(ctx).pool_account.min_deposit && old(ctx).pool_account.total_deposited
            + amount > u64::MAX ==> r == Err::<TransferOrder, ConsistencyError>(
            ConsistencyError::Overflow,
        ),
        r is Err ==> *final(ctx) == *old(ctx),
        r is Ok ==> r == Ok::<TransferOrder, ConsistencyError>(old(ctx).deposit_order(amount))
            && *final(ctx) == (Deposit {
            pool_account: old(ctx).pool_account.with_total_deposited(
                (old(ctx).pool_account.total_deposited + amount) as u64,
            ),
            ..*old(ctx)
        }),
{
    ctx.deposit(amount)
}

/// Records one success or failure outcome; see [`MarkStatus::mark_status`].
pub fn mark_status(ctx: &mut MarkStatus, succeeded: bool) -> (r: Result<(), ConsistencyError>)
    ensures
        r is Ok <==> (if succeeded {
            old(ctx).pool_account.successful_count < u64::MAX
        } else {
            old(ctx).pool_account.failed_count < u64::MAX
        }),
        r is Err ==> r == Err::<(), ConsistencyError>(ConsistencyError::Overflow) && *final(ctx)
            == *old(ctx),
        r is Ok && succeeded ==> *final(ctx) == (MarkStatus {
            pool_account: old(ctx).pool_account.with_successful_count(
                (old(ctx).pool_account.successful_count + 1) as u64,
            ),
            ..*old(ctx)
        }),
        r is Ok && !succeeded ==> *final(ctx) == (MarkStatus {
            pool_account: old(ctx).pool_account.with_failed_count(
                (old(ctx).pool_account.failed_count + 1) as u64,
            ),
            ..*old(ctx)
        }),
{
    ctx.mark_status(succeeded)
}

/// Computes and authorizes the pro-rata payout; see
/// [`ClaimWinnings::claim_winnings`].
pub fn claim_winnings(ctx: &mut ClaimWinnings) -> (r: Result<TransferOrder, ConsistencyError>)
    ensures
        *final(ctx) == *old(ctx),
        r is Ok <==> old(ctx).pool_account.successful_count > 0,
        old(ctx).pool_account.successful_count == 0 ==> r == Err::<TransferOrder, ConsistencyError>(
            ConsistencyError::NoSuccessfulUsers,
        ),
        r is Ok ==> r == Ok::<TransferOrder, ConsistencyError>(old(ctx).claim_order()),
        r != Err::<TransferOrder, ConsistencyError>(ConsistencyError::InvalidCalculation),
{
    ctx.claim_winnings()
}

} // verus!
