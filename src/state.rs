//! The records of a presale: the registry, the allocation ledger entries, the
//! identities they name, and the errors a purchase can meet.

use vstd::prelude::*;

verus! {

/// A 32-byte account identity: a buyer, an authority, a treasury or a mint.
#[derive(Clone, Copy, PartialEq, Eq, Debug)]
pub struct Pubkey {
    pub bytes: [u8; 32],
}

impl Pubkey {
    pub fn new_from_array(bytes: [u8; 32]) -> (r: Pubkey)
        ensures
            r.bytes == bytes,
    {
        Pubkey { bytes }
    }

    pub fn to_bytes(&self) -> (r: [u8; 32])
        ensures
            r == self.bytes,
    {
        self.bytes
    }
}

/// Why a purchase was turned down.
#[derive(Clone, Copy, PartialEq, Eq, Structural, Debug)]
pub enum PresaleError {
    PresaleNotStarted,
    PresaleEnded,
    BelowMinimumPurchase,
    AboveMaximumPurchase,
    HardCapReached,
    MathOverflow,
}

impl PresaleError {
    /// The human-readable message of the error.
    pub fn message(&self) -> (r: &'static str)
        ensures
            r@ == match self {
                PresaleError::PresaleNotStarted => "Presale has not started yet"@,
                PresaleError::PresaleEnded => "Presale has ended"@,
                PresaleError::BelowMinimumPurchase => "Purchase amount is below minimum"@,
                PresaleError::AboveMaximumPurchase => "Purchase amount is above maximum"@,
                PresaleError::HardCapReached => "Hard cap reached"@,
                PresaleError::MathOverflow => "Math overflow"@,
            },
    {
        match self {
            PresaleError::PresaleNotStarted => "Presale has not started yet",
            PresaleError::PresaleEnded => "Presale has ended",
            PresaleError::BelowMinimumPurchase => "Purchase amount is below minimum",
            PresaleError::AboveMaximumPurchase => "Purchase amount is above maximum",
            PresaleError::HardCapReached => "Hard cap reached",
            PresaleError::MathOverflow => "Math overflow",
        }
    }
}

/// The campaign's single registry record: configuration and running totals.
/// Amounts in "usd" are in cents; `token_price` is lamports per token, scaled by 10^9.
#[derive(Clone, Copy, Debug)]
pub struct PresaleConfig {
    pub authority: Pubkey,
    pub treasury_wallet: Pubkey,
    pub token_mint: Pubkey,
    pub presale_start: i64,
    pub presale_end: i64,
    pub token_price: u64,
    pub min_purchase_usd: u64,
    pub max_purchase_usd: u64,
    pub hard_cap_usd: u64,
    pub total_raised: u64,
    pub participant_count: u64,
    pub vesting_percent_immediate: u8,
    pub vesting_duration_months: u8,
    pub bump: u8,
}

impl PresaleConfig {
    /// The registry never holds more than its hard cap.
    pub open spec fn wf(self) -> bool {
        self.total_raised <= self.hard_cap_usd
    }

    /// The purchase window is not empty by construction.
    pub open spec fn window_valid(self) -> bool {
        self.presale_start <= self.presale_end
    }
}

/// One buyer's allocation record, created on the buyer's first purchase.
#[derive(Clone, Copy, Debug)]
pub struct UserAllocation {
    pub initialized: bool,
    pub buyer: Pubkey,
    pub total_allocation: u64,
    pub immediate_amount: u64,
    pub vested_amount: u64,
    pub vesting_end: i64,
    pub bump: u8,
}

impl UserAllocation {
    /// Every token granted is either released at once or vested.
    pub open spec fn wf(self) -> bool {
        self.total_allocation == self.immediate_amount + self.vested_amount
    }

    /// A record that no purchase has touched yet: all zero.
    pub fn empty() -> (r: UserAllocation)
        ensures
            !r.initialized,
            forall|i: int| 0 <= i < 32 ==> r.buyer.bytes@[i] == 0,
            r.total_allocation == 0,
            r.immediate_amount == 0,
            r.vested_amount == 0,
            r.vesting_end == 0,
            r.bump == 0,
            r.wf(),
    {
        UserAllocation {
            initialized: false,
            buyer: Pubkey { bytes: [0u8; 32] },
            total_allocation: 0,
            immediate_amount: 0,
            vested_amount: 0,
            vesting_end: 0,
            bump: 0,
        }
    }
}

/// The records that `initialize` works on: the signing authority, the registry
/// record being created, and the bump seed found for its address.
#[derive(Clone, Copy, Debug)]
pub struct Initialize {
    pub authority: Pubkey,
    pub presale_config: PresaleConfig,
    pub config_bump: u8,
}

/// The records that one purchase works on: the signing buyer, the registry,
/// the buyer's allocation record, and the bump seed found for its address.
#[derive(Clone, Copy, Debug)]
pub struct Purchase {
    pub buyer: Pubkey,
    pub presale_config: PresaleConfig,
    pub user_allocation: UserAllocation,
    pub allocation_bump: u8,
}

impl Purchase {
    /// The registry holds its cap, and an existing allocation record is balanced.
    pub open spec fn wf(self) -> bool {
        &&& self.presale_config.wf()
        &&& self.user_allocation.initialized ==> self.user_allocation.wf()
    }
}

} // verus!
