//! Persistent state of a consistency pool: the Pool Record, the error
//! taxonomy, and the values exchanged with the external transfer rail.

use vstd::prelude::*;

verus! {

/// Identity of a ledger account (an owner, a token account, an asset mint),
/// reduced to the opaque numeric handle the pool logic compares by.
#[derive(Clone, Copy, PartialEq, Eq, Structural, Debug)]
pub struct AccountId {
    pub id: u64,
}

/// One pool's configuration and running totals. There is one record per
/// owner identity; `total_deposited` and the two outcome counters start at
/// zero and only grow, by checked addition.
#[derive(Clone, Copy, PartialEq, Eq, Structural, Debug)]
pub struct PoolAccount {
    pub owner: AccountId,
    pub usdc_mint: AccountId,
    pub vault: AccountId,
    pub consistency_period: u64,
    pub min_deposit: u64,
    pub total_deposited: u64,
    pub successful_count: u64,
    pub failed_count: u64,
    pub start_time: u64,
    pub bump: u8,
}

/// Reasons an operation rejects. Every rejection is terminal for the one
/// operation in progress and leaves the Pool Record unchanged.
#[derive(Clone, Copy, PartialEq, Eq, Structural, Debug)]
pub enum ConsistencyError {
    /// Deposit amount is below the configured minimum.
    DepositTooSmall,
    /// A checked addition would exceed the representable range.
    Overflow,
    /// A payout was requested with no successful outcome recorded.
    NoSuccessfulUsers,
    /// Defensive guard against a zero-divisor payout computation; it sits
    /// behind the NoSuccessfulUsers check and is never actually returned.
    InvalidCalculation,
    /// Declared for a claim-window gate that no operation enforces yet.
    PeriodNotEnded,
    /// Declared for per-claim tracking that no operation performs yet.
    AlreadyClaimed,
}

/// The capability derived from a pool owner's identity and a salt.
/// Presenting it is the only way to debit the pool's vault; it is
/// deterministic, so the vault's controlling authority can be recomputed
/// and checked independently.
#[derive(Clone, Copy, PartialEq, Eq, Structural, Debug)]
pub struct DerivedAuthority {
    pub owner: AccountId,
    pub salt: u8,
}

/// Who authorizes a transfer handed to the external rail.
#[derive(Clone, Copy, PartialEq, Eq, Structural, Debug)]
pub enum TransferAuthority {
    /// The sending account's own holder authorizes the debit.
    Account(AccountId),
    /// The pool logic authorizes the debit with its derived capability.
    Pool(DerivedAuthority),
}

/// An instruction to the external transfer rail: move `amount` units of the
/// `mint` asset from `from` to `to`, signed by `authority`.
#[derive(Clone, Copy, PartialEq, Eq, Structural, Debug)]
pub struct TransferOrder {
    pub mint: AccountId,
    pub from: AccountId,
    pub to: AccountId,
    pub amount: u64,
    pub authority: TransferAuthority,
}

impl DerivedAuthority {
    /// Deterministic derivation of the vault-controlling capability from an
    /// owner identity and a salt.
    pub fn derive(owner: AccountId, salt: u8) -> (a: DerivedAuthority)
        ensures
            a == (DerivedAuthority { owner, salt }),
    {
        DerivedAuthority { owner, salt }
    }

    /// Whether this capability is the one controlling the vault of `pool`.
    pub fn controls(&self, pool: &PoolAccount) -> (r: bool)
        ensures
            r == (self.owner == pool.owner && self.salt == pool.bump),
    {
        self.owner == pool.owner && self.salt == pool.bump
    }
}

impl PoolAccount {
    /// The pro-rata share of one successful participant:
    /// `floor(total_deposited / successful_count)`.
    pub open spec fn payout_amount(self) -> u64
        recommends
            self.successful_count > 0,
    {
        ((self.total_deposited as int) / (self.successful_count as int)) as u64
    }

    /// The same record with only `total_deposited` replaced.
    pub open spec fn with_total_deposited(self, v: u64) -> PoolAccount {
        PoolAccount { total_deposited: v, ..self }
    }

    /// The same record with only `successful_count` replaced.
    pub open spec fn with_successful_count(self, v: u64) -> PoolAccount {
        PoolAccount { successful_count: v, ..self }
    }

    /// The same record with only `failed_count` replaced.
    pub open spec fn with_failed_count(self, v: u64) -> PoolAccount {
        PoolAccount { failed_count: v, ..self }
    }
}

/// Division with an explicit zero-divisor guard.
pub fn checked_div(a: u64, b: u64) -> (r: Option<u64>)
    ensures
        b == 0 ==> r is None,
        b != 0 ==> r == Some(((a as int) / (b as int)) as u64),
{
    if b == 0 {
        None
    } else {
        Some(a / b)
    }
}

} // verus!
