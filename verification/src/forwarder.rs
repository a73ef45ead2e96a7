//! Resolving the true caller on the receiving side of a forwarded call.
//!
//! A guest that accepts forwarded calls sees the relay, not the end user, as
//! its immediate invoker.  It may trust a forwarded caller identity only
//! when the invoker is the relay it was configured with; any other invoker
//! speaks for itself.

use vstd::prelude::*;
use crate::identity::Principal;
use crate::identity::TargetId;

verus! {

/// Decides whom a guest should treat as the caller of the current
/// invocation.
///
/// `invoking_contract` is the contract the immediate invoker belongs to, or
/// `None` when an account invoked the guest directly; `relay_contract` is
/// the forwarder the guest trusts; `forwarded_caller` is the caller argument
/// attached to the invocation, when one was; `direct_caller` is the account
/// at the root of the call chain.  A forwarded identity counts only when the
/// trusted relay itself attached it — and the relay always does, which is
/// what the precondition records.
pub fn get_caller(
    invoking_contract: Option<TargetId>,
    relay_contract: TargetId,
    forwarded_caller: Option<Principal>,
    direct_caller: Principal,
) -> (r: Principal)
    requires
        invoking_contract == Some(relay_contract) ==> forwarded_caller is Some,
    ensures
        invoking_contract == Some(relay_contract) ==> forwarded_caller == Some(r),
        invoking_contract != Some(relay_contract) ==> r == direct_caller,
{
    match invoking_contract {
        Some(pkg) => {
            if pkg == relay_contract {
                match forwarded_caller {
                    Some(c) => c,
                    None => direct_caller,
                }
            } else {
                direct_caller
            }
        },
        None => direct_caller,
    }
}

} // verus!
