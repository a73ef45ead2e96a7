//! The relay itself: configuration, storage and purses in one state value,
//! with one method per entry point.
//!
//! Every operation either commits completely or reports an error and leaves
//! the state exactly as it found it.  The well-formedness predicate `wf` is
//! required and re-established by every operation; it carries the escrow
//! guarantee that the ledger never promises more than the deposit purse
//! holds, and that every registered target's owner has a ledger row.

use vstd::prelude::*;
use crate::errors::Error;
use crate::events::CallOnBehalf;
use crate::events::Deposit;
use crate::events::Register;
use crate::fee;
use crate::fee::fee_of;
use crate::identity::Principal;
use crate::identity::TargetId;
use crate::ledger::Ledger;
use crate::ledger::with_zero_entry;
use crate::permission;
use crate::permission::Permission;
use crate::registry::Registry;

verus! {

/// The whole state of the relay service.
///
/// `relay_purse` collects incoming value (deposits on their way to an owner,
/// and the pool that outgoing payments are made from), `deposit_purse`
/// escrows the value backing the ledger, and `fee_purse` accumulates
/// protocol revenue until the administrator claims it.
pub struct Relay {
    pub admin: Principal,
    pub fee_rate: u32,
    pub registry: Registry,
    pub ledger: Ledger,
    pub relay_purse: u64,
    pub deposit_purse: u64,
    pub fee_purse: u64,
}

impl Relay {
    /// What every operation preserves:
    /// the two stores are well formed, every registered target's owner has a
    /// ledger row, the deposit purse covers the ledger's promised total, and
    /// the three purses together fit the balance type.
    pub open spec fn wf(&self) -> bool {
        &&& self.ledger.wf()
        &&& self.registry.wf()
        &&& forall|t: TargetId|
            #[trigger] self.registry@.dom().contains(t) ==> self.ledger@.dom().contains(
                self.registry@[t],
            )
        &&& self.ledger.total() <= self.deposit_purse
        &&& self.relay_purse + self.deposit_purse + self.fee_purse <= u64::MAX
    }

    /// What a sponsored call costs its owner: the gas amount plus the fee on
    /// it at the given rate.
    pub open spec fn spec_cost(gas_amount: u64, fee_rate: u32) -> int {
        gas_amount + fee_of(gas_amount, fee_rate)
    }

    /// A fresh relay: the given installer as administrator, a zero fee rate,
    /// empty stores, empty purses.
    pub fn init(admin: Principal) -> (r: Relay)
        ensures
            r.wf(),
            r.admin == admin,
            r.fee_rate == 0,
            r.registry@ == Map::<TargetId, Principal>::empty(),
            r.ledger@ == Map::<Principal, u64>::empty(),
            r.relay_purse == 0,
            r.deposit_purse == 0,
            r.fee_purse == 0,
    {
        Relay {
            admin,
            fee_rate: 0,
            registry: Registry::new(),
            ledger: Ledger::new(),
            relay_purse: 0,
            deposit_purse: 0,
            fee_purse: 0,
        }
    }

    /// The owner's prepaid balance; an owner without a ledger row reads as
    /// zero.
    pub fn read(&self, owner: Principal) -> (r: u64)
        requires
            self.wf(),
        ensures
            r == self.ledger.spec_read(owner),
    {
        self.ledger.read(owner)
    }

    /// The balance sitting in the relay purse.  On the host this entry point
    /// hands out the purse itself so depositors can transfer value in; the
    /// model reports what the purse holds.
    pub fn get_purse(&self) -> (r: u64)
        ensures
            r == self.relay_purse,
    {
        self.relay_purse
    }

    /// Value arriving in the relay purse from outside: a depositor paying in
    /// through the purse that `get_purse` handed out.  The bound is a machine
    /// limit: the purses must still fit the balance type afterwards.
    pub fn fund_purse(&mut self, amount: u64)
        requires
            old(self).wf(),
            old(self).relay_purse + old(self).deposit_purse + old(self).fee_purse + amount
                <= u64::MAX,
        ensures
            final(self).wf(),
            final(self).relay_purse == old(self).relay_purse + amount,
            final(self).deposit_purse == old(self).deposit_purse,
            final(self).fee_purse == old(self).fee_purse,
            final(self).ledger == old(self).ledger,
            final(self).registry == old(self).registry,
            final(self).admin == old(self).admin,
            final(self).fee_rate == old(self).fee_rate,
    {
        self.relay_purse = self.relay_purse + amount;
    }

    /// Binds a target to the principal that will pay for it.  Privileged.
    ///
    /// A first registration gives the owner a zero ledger row; registering an
    /// owner that already has one leaves its balance exactly as it is, so a
    /// target may be re-pointed without touching anyone's funds.
    pub fn register(&mut self, caller: Principal, contract_hash: TargetId, owner: Principal)
        -> (r: Result<Register, Error>)
        requires
            old(self).wf(),
        ensures
            final(self).wf(),
            r is Err ==> *final(self) == *old(self),
            caller != old(self).admin ==> r == Err::<Register, Error>(Error::Unauthorized),
            caller == old(self).admin ==> {
                &&& r == Ok::<Register, Error>((Register { contract_hash, owner }))
                &&& final(self).ledger@ == with_zero_entry(old(self).ledger@, owner)
                &&& final(self).ledger.total() == old(self).ledger.total()
                &&& final(self).registry@ == old(self).registry@.insert(contract_hash, owner)
                &&& final(self).relay_purse == old(self).relay_purse
                &&& final(self).deposit_purse == old(self).deposit_purse
                &&& final(self).fee_purse == old(self).fee_purse
                &&& final(self).admin == old(self).admin
                &&& final(self).fee_rate == old(self).fee_rate
            },
    {
        if let Err(e) = permission::require(Permission::Installer, caller, self.admin) {
            return Err(e);
        }
        self.ledger.ensure_entry(owner);
        self.registry.put(contract_hash, owner);
        Ok(Register::new(contract_hash, owner))
    }

    /// Credits an owner with everything currently in the relay purse, moving
    /// that value into the deposit purse that escrows it.  Only owners that
    /// already have a ledger row may be credited.
    pub fn deposit(&mut self, owner: Principal) -> (r: Result<Deposit, Error>)
        requires
            old(self).wf(),
        ensures
            final(self).wf(),
            r is Err ==> *final(self) == *old(self),
            !old(self).ledger@.dom().contains(owner) ==> r == Err::<Deposit, Error>(
                Error::Unregistered,
            ),
            old(self).ledger@.dom().contains(owner) ==> {
                &&& r == Ok::<Deposit, Error>((Deposit { owner, amount: old(self).relay_purse }))
                &&& final(self).relay_purse == 0
                &&& final(self).deposit_purse == old(self).deposit_purse + old(self).relay_purse
                &&& final(self).ledger@ == old(self).ledger@.insert(
                    owner,
                    (old(self).ledger@[owner] + old(self).relay_purse) as u64,
                )
                &&& final(self).ledger.total() == old(self).ledger.total() + old(
                    self,
                ).relay_purse
                &&& final(self).fee_purse == old(self).fee_purse
                &&& final(self).registry == old(self).registry
                &&& final(self).admin == old(self).admin
                &&& final(self).fee_rate == old(self).fee_rate
            },
    {
        if !self.ledger.contains(owner) {
            return Err(Error::Unregistered);
        }
        let amount = self.relay_purse;
        self.relay_purse = 0;
        self.deposit_purse = self.deposit_purse + amount;
        proof {
            self.ledger.lemma_total_covers(owner);
        }
        self.ledger.credit(owner, amount);
        Ok(Deposit::new(owner, amount))
    }

    /// Sets the per-mille fee rate.  Privileged; the new rate replaces the
    /// old one without further validation.
    pub fn set_fee_rate(&mut self, caller: Principal, fee_rate: u32) -> (r: Result<(), Error>)
        requires
            old(self).wf(),
        ensures
            final(self).wf(),
            r is Err ==> *final(self) == *old(self),
            caller != old(self).admin ==> r == Err::<(), Error>(Error::Unauthorized),
            caller == old(self).admin ==> {
                &&& r == Ok::<(), Error>(())
                &&& final(self).fee_rate == fee_rate
                &&& final(self).ledger == old(self).ledger
                &&& final(self).registry == old(self).registry
                &&& final(self).relay_purse == old(self).relay_purse
                &&& final(self).deposit_purse == old(self).deposit_purse
                &&& final(self).fee_purse == old(self).fee_purse
                &&& final(self).admin == old(self).admin
            },
    {
        if let Err(e) = permission::require(Permission::Installer, caller, self.admin) {
            return Err(e);
        }
        self.fee_rate = fee_rate;
        Ok(())
    }

    /// Pays the accumulated protocol revenue out to the administrator,
    /// draining the fee purse to exactly zero.  Privileged.  The amount
    /// returned is what the administrator's account is credited with.
    pub fn claim_fee(&mut self, caller: Principal) -> (r: Result<u64, Error>)
        requires
            old(self).wf(),
        ensures
            final(self).wf(),
            r is Err ==> *final(self) == *old(self),
            caller != old(self).admin ==> r == Err::<u64, Error>(Error::Unauthorized),
            caller == old(self).admin ==> {
                &&& r == Ok::<u64, Error>(old(self).fee_purse)
                &&& final(self).fee_purse == 0
                &&& final(self).ledger == old(self).ledger
                &&& final(self).registry == old(self).registry
                &&& final(self).relay_purse == old(self).relay_purse
                &&& final(self).deposit_purse == old(self).deposit_purse
                &&& final(self).admin == old(self).admin
                &&& final(self).fee_rate == old(self).fee_rate
            },
    {
        if let Err(e) = permission::require(Permission::Installer, caller, self.admin) {
            return Err(e);
        }
        let claimed = self.fee_purse;
        self.fee_purse = 0;
        Ok(claimed)
    }

    /// Sponsors one call: reimburses the paymaster's gas from the owner's
    /// escrowed balance, takes the protocol fee, pays the target any
    /// requested amount from the relay purse, and reports the event whose
    /// forwarded call the host then performs with the true caller attached.
    ///
    /// All checks precede all movement, so a refused call changes nothing.
    /// The host reverts the whole operation if the forwarded call itself
    /// fails, which is outside this model.
    pub fn call_on_behalf(
        &mut self,
        paymaster: Principal,
        contract_hash: TargetId,
        entry_point: String,
        caller: Principal,
        gas_amount: u64,
        pay_amount: u64,
    ) -> (r: Result<CallOnBehalf, Error>)
        requires
            old(self).wf(),
        ensures
            final(self).wf(),
            r is Err ==> *final(self) == *old(self),
            paymaster != old(self).admin ==> r == Err::<CallOnBehalf, Error>(Error::Unauthorized),
            paymaster == old(self).admin && !old(self).registry@.dom().contains(contract_hash)
                ==> r == Err::<CallOnBehalf, Error>(Error::Unregistered),
            paymaster == old(self).admin && old(self).registry@.dom().contains(contract_hash)
                ==> ({
                let owner = old(self).registry@[contract_hash];
                let cost = Self::spec_cost(gas_amount, old(self).fee_rate);
                let balance = old(self).ledger.spec_read(owner);
                &&& (balance < cost || pay_amount > old(self).relay_purse) ==> r == Err::<
                    CallOnBehalf,
                    Error,
                >(Error::InsufficientBalance)
                &&& (balance >= cost && pay_amount <= old(self).relay_purse) ==> {
                    &&& r matches Ok(ev) && ev.contract_hash == contract_hash && ev.owner == owner
                        && ev.caller == caller && ev.entry_point == entry_point && ev.gas_amount
                        == gas_amount && ev.cep18_hash is None
                    &&& final(self).ledger@ == old(self).ledger@.insert(
                        owner,
                        (balance - cost) as u64,
                    )
                    &&& final(self).ledger.total() == old(self).ledger.total() - cost
                    &&& final(self).deposit_purse == old(self).deposit_purse - cost
                    &&& final(self).fee_purse == old(self).fee_purse + fee_of(
                        gas_amount,
                        old(self).fee_rate,
                    )
                    &&& final(self).relay_purse == old(self).relay_purse - pay_amount
                    &&& final(self).registry == old(self).registry
                    &&& final(self).admin == old(self).admin
                    &&& final(self).fee_rate == old(self).fee_rate
                }
            }),
    {
        if let Err(e) = permission::require(Permission::Installer, paymaster, self.admin) {
            return Err(e);
        }
        let owner = match self.registry.resolve(contract_hash) {
            Ok(o) => o,
            Err(e) => {
                return Err(e);
            },
        };
        let balance = self.ledger.read(owner);
        let fee_wide = fee::compute_fee(gas_amount, self.fee_rate);
        let cost_wide: u128 = gas_amount as u128 + fee_wide;
        if (balance as u128) < cost_wide {
            return Err(Error::InsufficientBalance);
        }
        if pay_amount > self.relay_purse {
            return Err(Error::InsufficientBalance);
        }
        let fee = fee_wide as u64;
        let cost = gas_amount + fee;
        proof {
            self.ledger.lemma_total_covers(owner);
        }
        self.deposit_purse = self.deposit_purse - gas_amount;
        if fee > 0 {
            self.deposit_purse = self.deposit_purse - fee;
            self.fee_purse = self.fee_purse + fee;
        }
        // The affordability check above already covered this debit, so it
        // cannot be refused.
        let debited = self.ledger.debit(owner, cost);
        match debited {
            Ok(()) => (),
            Err(_) => {
                proof {
                    assert(false);
                }
            },
        }
        if pay_amount > 0 {
            self.relay_purse = self.relay_purse - pay_amount;
        }
        Ok(CallOnBehalf::new(contract_hash, owner, caller, entry_point, gas_amount, None))
    }
}

/// A balance can never be observed negative: whatever an owner's standing,
/// what the ledger reads for it is at least zero.
pub proof fn lemma_balance_never_negative(relay: Relay, owner: Principal)
    requires
        relay.wf(),
    ensures
        relay.ledger.spec_read(owner) >= 0,
{
}

/// After every operation the deposit purse covers the sum of all prepaid
/// balances: the ledger never promises more than is actually escrowed.
pub proof fn lemma_escrow_covered(relay: Relay)
    requires
        relay.wf(),
    ensures
        relay.ledger.total() <= relay.deposit_purse,
{
}

/// Registering the same target for the same owner twice leaves the ledger
/// and the registry exactly as one registration does.
pub proof fn lemma_register_idempotent(
    balances: Map<Principal, u64>,
    owners: Map<TargetId, Principal>,
    contract_hash: TargetId,
    owner: Principal,
)
    ensures
        with_zero_entry(with_zero_entry(balances, owner), owner) == with_zero_entry(
            balances,
            owner,
        ),
        owners.insert(contract_hash, owner).insert(contract_hash, owner) == owners.insert(
            contract_hash,
            owner,
        ),
{
    assert(owners.insert(contract_hash, owner).insert(contract_hash, owner) =~= owners.insert(
        contract_hash,
        owner,
    ));
}

} // verus!
