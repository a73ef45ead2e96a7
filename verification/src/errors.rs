//! The failure kinds an operation can surface.
//!
//! Every failure is terminal for the operation that raised it: the operation
//! leaves all state untouched and reports one of these kinds.

use vstd::prelude::*;

verus! {

/// Why an operation was refused.  Each kind carries a stable numeric code so
/// the host can report it as a user error.
#[derive(Clone, Copy, PartialEq, Eq, Structural, Debug)]
pub enum Error {
    /// The caller is not the administrator.
    Unauthorized,
    /// The target, or the owner, is not known to the registry or ledger.
    Unregistered,
    /// The debit would drive a balance below zero.
    InsufficientBalance,
    /// Reserved for a minimum-amount guard; no current operation raises it.
    InsufficientAmount,
}

impl Error {
    /// The numeric code under which the host reports this error.
    pub fn code(&self) -> (r: u16)
        ensures
            r == self.spec_code(),
            1 <= r <= 4,
    {
        match self {
            Error::Unauthorized => 1,
            Error::Unregistered => 2,
            Error::InsufficientBalance => 3,
            Error::InsufficientAmount => 4,
        }
    }

    pub open spec fn spec_code(&self) -> u16 {
        match self {
            Error::Unauthorized => 1u16,
            Error::Unregistered => 2u16,
            Error::InsufficientBalance => 3u16,
            Error::InsufficientAmount => 4u16,
        }
    }
}

} // verus!
