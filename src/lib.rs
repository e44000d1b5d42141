//! A custodial escrow ledger: a sender deposits a fixed amount into a vault
//! owned by a program-derived authority, and the designated recipient claims it
//! or the sender takes it back, never both.
pub mod address;
pub mod custody;
pub mod invariants;
pub mod ledger;

pub use address::Address;
pub use ledger::{
    claim_gift, initialize_gift, refund_gift, ClaimGift, EscrowError, EscrowState,
    InitializeGift, Ledger, RefundGift, TokenAccountInfo, Transfer,
};
