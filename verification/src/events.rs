//! Observability events, appended to the host's log by the surrounding code.
//!
//! Each successful mutating operation reports one of these records; the
//! relay itself never reads them back.

use vstd::prelude::*;
use crate::identity::Principal;
use crate::identity::TargetId;

verus! {

/// A target was bound to an owning principal.
#[derive(Clone, Copy, PartialEq, Eq, Structural, Debug)]
pub struct Register {
    pub contract_hash: TargetId,
    pub owner: Principal,
}

/// An owner's prepaid balance was topped up.
#[derive(Clone, Copy, PartialEq, Eq, Structural, Debug)]
pub struct Deposit {
    pub owner: Principal,
    pub amount: u64,
}

/// A call was forwarded on a caller's behalf and its cost debited.
#[derive(Clone, Debug)]
pub struct CallOnBehalf {
    pub contract_hash: TargetId,
    pub owner: Principal,
    pub caller: Principal,
    pub entry_point: String,
    pub gas_amount: u64,
    pub cep18_hash: Option<TargetId>,
}

impl Register {
    pub fn new(contract_hash: TargetId, owner: Principal) -> (r: Register)
        ensures
            r.contract_hash == contract_hash,
            r.owner == owner,
    {
        Register { contract_hash, owner }
    }
}

impl Deposit {
    pub fn new(owner: Principal, amount: u64) -> (r: Deposit)
        ensures
            r.owner == owner,
            r.amount == amount,
    {
        Deposit { owner, amount }
    }
}

impl CallOnBehalf {
    pub fn new(
        contract_hash: TargetId,
        owner: Principal,
        caller: Principal,
        entry_point: String,
        gas_amount: u64,
        cep18_hash: Option<TargetId>,
    ) -> (r: CallOnBehalf)
        ensures
            r.contract_hash == contract_hash,
            r.owner == owner,
            r.caller == caller,
            r.entry_point == entry_point,
            r.gas_amount == gas_amount,
            r.cep18_hash == cep18_hash,
    {
        CallOnBehalf { contract_hash, owner, caller, entry_point, gas_amount, cep18_hash }
    }
}

} // verus!
