//! The permission guard that gates privileged operations.

use vstd::prelude::*;
use crate::errors::Error;
use crate::identity::Principal;

verus! {

/// A privilege a caller can be required to hold.  The installer — the
/// administrator set at initialization — is the only privilege in use.
#[derive(Clone, Copy, PartialEq, Eq, Structural, Debug)]
pub enum Permission {
    Installer,
}

/// Checks the caller against the holder of the demanded privilege.  Succeeds
/// exactly when they are the same principal; has no other effect.
pub fn require(permission: Permission, caller: Principal, installer: Principal) -> (r: Result<
    (),
    Error,
>)
    ensures
        caller == installer ==> r == Ok::<(), Error>(()),
        caller != installer ==> r == Err::<(), Error>(Error::Unauthorized),
{
    match permission {
        Permission::Installer => {
            if caller == installer {
                Ok(())
            } else {
                Err(Error::Unauthorized)
            }
        },
    }
}

} // verus!
