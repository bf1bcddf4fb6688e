//! A token presale: a fixed purchase window, per-purchase and aggregate
//! limits, and per-buyer allocations split into an immediate and a vested part.

pub mod laws;
pub mod rules;
pub mod state;

pub use laws::PurchaseAttempt;
pub use rules::{initialize, purchase, split_allocation, validate_purchase, vesting_end_after};
pub use state::{Initialize, PresaleConfig, PresaleError, Pubkey, Purchase, UserAllocation};
