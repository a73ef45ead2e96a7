//! A meta-transaction relay with verified escrow accounting.
//!
//! A designated administrator (the installer) sponsors transaction fees on
//! behalf of registered clients.  A registry maps each callable target to the
//! principal that pays for it, a ledger tracks each principal's prepaid
//! balance, and three purses escrow the value that backs those balances.
//! The central invariant, kept by every operation, is that the ledger never
//! promises more value than the deposit purse actually holds.

pub mod errors;
pub mod events;
pub mod fee;
pub mod forwarder;
pub mod identity;
pub mod ledger;
pub mod permission;
pub mod registry;
pub mod relay;
