use consistency_pool::claim_winnings::ClaimWinnings;
use consistency_pool::deposit::Deposit;
use consistency_pool::initialize_pool::InitializePool;
use consistency_pool::mark_status::MarkStatus;
use consistency_pool::state::AccountId;
use consistency_pool::state::ConsistencyError;
use consistency_pool::state::DerivedAuthority;
use consistency_pool::state::PoolAccount;
use consistency_pool::state::TransferAuthority;

fn acct(id: u64) -> AccountId {
    AccountId { id }
}

fn pool(min_deposit: u64, total_deposited: u64, successful: u64, failed: u64) -> PoolAccount {
    PoolAccount {
        owner: acct(1),
        usdc_mint: acct(2),
        vault: acct(3),
        consistency_period: 3600,
        min_deposit,
        total_deposited,
        successful_count: successful,
        failed_count: failed,
        start_time: 1_700_000_000,
        bump: 254,
    }
}

fn deposit_ctx(p: PoolAccount) -> Deposit {
    Deposit {
        user: acct(7),
        usdc_mint: acct(2),
        user_token_account: acct(8),
        vault: acct(3),
        pool_account: p,
    }
}

fn claim_ctx(p: PoolAccount) -> ClaimWinnings {
    ClaimWinnings {
        user: acct(7),
        usdc_mint: acct(2),
        user_token_account: acct(8),
        vault: acct(3),
        pool_account: p,
    }
}

#[test]
fn initialize_populates_record() {
    let mut ctx = InitializePool {
        owner: acct(1),
        usdc_mint: acct(2),
        vault: acct(3),
        pool_account: pool(99, 99, 99, 99),
    };
    let r = ctx.initialize(3600, 10, 1_700_000_000, 254);
    assert_eq!(r, Ok(()));
    assert_eq!(ctx.pool_account, pool(10, 0, 0, 0));
}

#[test]
fn deposit_adds_exact_amount() {
    let mut ctx = deposit_ctx(pool(10, 0, 0, 0));
    let r = ctx.deposit(50).unwrap();
    assert_eq!(ctx.pool_account, pool(10, 50, 0, 0));
    assert_eq!(r.amount, 50);
    assert_eq!(r.from, acct(8));
    assert_eq!(r.to, acct(3));
    assert_eq!(r.mint, acct(2));
    let r2 = ctx.deposit(25).unwrap();
    assert_eq!(ctx.pool_account, pool(10, 75, 0, 0));
    assert_eq!(r2.amount, 25);
}

#[test]
fn deposit_below_minimum_rejected() {
    let before = pool(10, 40, 2, 1);
    let mut ctx = deposit_ctx(before);
    let r = ctx.deposit(9);
    assert_eq!(r, Err(ConsistencyError::DepositTooSmall));
    assert_eq!(ctx.pool_account, before);
}

#[test]
fn deposit_overflow_rejected() {
    let before = pool(5, u64::MAX - 5, 0, 0);
    let mut ctx = deposit_ctx(before);
    let r = ctx.deposit(20);
    assert_eq!(r, Err(ConsistencyError::Overflow));
    assert_eq!(ctx.pool_account, before);
    assert!(ctx.deposit(5).is_ok());
    assert_eq!(ctx.pool_account.total_deposited, u64::MAX);
}

#[test]
fn mark_success_increments_only_successful() {
    let mut ctx = MarkStatus { user: acct(7), pool_account: pool(10, 50, 2, 7) };
    assert_eq!(ctx.mark_status(true), Ok(()));
    assert_eq!(ctx.pool_account, pool(10, 50, 3, 7));
}

#[test]
fn mark_failure_increments_only_failed() {
    let mut ctx = MarkStatus { user: acct(7), pool_account: pool(10, 50, 2, 7) };
    assert_eq!(ctx.mark_status(false), Ok(()));
    assert_eq!(ctx.pool_account, pool(10, 50, 2, 8));
}

#[test]
fn mark_status_overflow_rejected() {
    let full_success = pool(10, 0, u64::MAX, 3);
    let mut ctx = MarkStatus { user: acct(7), pool_account: full_success };
    assert_eq!(ctx.mark_status(true), Err(ConsistencyError::Overflow));
    assert_eq!(ctx.pool_account, full_success);
    let full_failed = pool(10, 0, 3, u64::MAX);
    let mut ctx2 = MarkStatus { user: acct(7), pool_account: full_failed };
    assert_eq!(ctx2.mark_status(false), Err(ConsistencyError::Overflow));
    assert_eq!(ctx2.pool_account, full_failed);
}

#[test]
fn claim_without_success_rejected() {
    let before = pool(10, 500, 0, 4);
    let mut ctx = claim_ctx(before);
    let r = ctx.claim_winnings();
    assert_eq!(r, Err(ConsistencyError::NoSuccessfulUsers));
    assert_eq!(ctx.pool_account, before);
}

#[test]
fn claim_order_signed_by_pool_authority() {
    let mut ctx = claim_ctx(pool(10, 60, 2, 0));
    let order = ctx.claim_winnings().unwrap();
    assert_eq!(order.amount, 30);
    assert_eq!(order.from, acct(3));
    assert_eq!(order.to, acct(8));
    let authority = DerivedAuthority::derive(acct(1), 254);
    assert_eq!(order.authority, TransferAuthority::Pool(authority));
    assert!(authority.controls(&ctx.pool_account));
    assert!(!DerivedAuthority::derive(acct(1), 7).controls(&ctx.pool_account));
    assert!(!DerivedAuthority::derive(acct(9), 254).controls(&ctx.pool_account));
}

#[test]
fn deposit_order_signed_by_depositor() {
    let mut ctx = deposit_ctx(pool(10, 0, 0, 0));
    let order = ctx.deposit(10).unwrap();
    assert_eq!(order.authority, TransferAuthority::Account(acct(7)));
}

#[test]
fn payout_remainder_stranded() {
    let before = pool(10, 100, 3, 0);
    let mut ctx = claim_ctx(before);
    let order = ctx.claim_winnings().unwrap();
    assert_eq!(order.amount, 33);
    assert_eq!(order.amount * 3, 99);
    // the 1-unit remainder appears in no order and in no field of the record
    assert_eq!(ctx.pool_account, before);
}
