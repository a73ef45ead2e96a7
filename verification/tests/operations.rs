use relay::errors::Error;
use relay::identity::Principal;
use relay::identity::TargetId;
use relay::relay::Relay;

fn admin() -> Principal {
    Principal::new(1)
}

fn owner() -> Principal {
    Principal::new(2)
}

fn caller() -> Principal {
    Principal::new(3)
}

fn target() -> TargetId {
    TargetId::new(7)
}

/// A relay with the target registered for the owner and `balance` deposited
/// on the owner's account.
fn funded_relay(balance: u64) -> Relay {
    let mut r = Relay::init(admin());
    r.register(admin(), target(), owner()).unwrap();
    r.fund_purse(balance);
    r.deposit(owner()).unwrap();
    r
}

#[test]
fn register_initializes_balance_to_zero() {
    let mut r = Relay::init(admin());
    let ev = r.register(admin(), target(), owner()).unwrap();
    assert_eq!(ev.contract_hash, target());
    assert_eq!(ev.owner, owner());
    assert_eq!(r.read(owner()), 0);
    assert_eq!(r.registry.resolve(target()).unwrap(), owner());
}

#[test]
fn register_by_non_admin_is_unauthorized() {
    let mut r = Relay::init(admin());
    assert_eq!(r.register(caller(), target(), owner()).unwrap_err(), Error::Unauthorized);
    assert!(!r.registry.contains(target()));
    assert_eq!(r.registry.resolve(target()).unwrap_err(), Error::Unregistered);
}

#[test]
fn register_twice_changes_nothing_more() {
    let mut r = funded_relay(400);
    r.register(admin(), target(), owner()).unwrap();
    r.register(admin(), target(), owner()).unwrap();
    assert_eq!(r.read(owner()), 400);
    assert_eq!(r.registry.resolve(target()).unwrap(), owner());
    assert_eq!(r.deposit_purse, 400);
}

#[test]
fn register_can_repoint_a_target() {
    let other = Principal::new(9);
    let mut r = funded_relay(400);
    r.register(admin(), target(), other).unwrap();
    assert_eq!(r.registry.resolve(target()).unwrap(), other);
    assert_eq!(r.read(owner()), 400);
    assert_eq!(r.read(other), 0);
}

#[test]
fn deposit_credits_whatever_the_purse_holds() {
    let mut r = Relay::init(admin());
    r.register(admin(), target(), owner()).unwrap();
    r.fund_purse(1000);
    assert_eq!(r.get_purse(), 1000);
    let ev = r.deposit(owner()).unwrap();
    assert_eq!(ev.owner, owner());
    assert_eq!(ev.amount, 1000);
    assert_eq!(r.read(owner()), 1000);
    assert_eq!(r.get_purse(), 0);
}

#[test]
fn deposit_for_unknown_owner_is_unregistered() {
    let mut r = Relay::init(admin());
    r.fund_purse(1000);
    assert_eq!(r.deposit(owner()).unwrap_err(), Error::Unregistered);
    assert_eq!(r.get_purse(), 1000);
}

#[test]
fn deposits_accumulate() {
    let mut r = funded_relay(300);
    r.fund_purse(200);
    r.deposit(owner()).unwrap();
    assert_eq!(r.read(owner()), 500);
}

#[test]
fn deposit_credits_the_named_owner_with_all_pooled_value() {
    // The credited amount is what sits in the relay purse, not what any one
    // depositor paid in: two fundings followed by one deposit all go to the
    // owner named in that deposit.
    let other = Principal::new(9);
    let mut r = Relay::init(admin());
    r.register(admin(), target(), owner()).unwrap();
    r.register(admin(), TargetId::new(8), other).unwrap();
    r.fund_purse(300);
    r.fund_purse(200);
    r.deposit(other).unwrap();
    assert_eq!(r.read(other), 500);
    assert_eq!(r.read(owner()), 0);
}

#[test]
fn set_fee_rate_by_non_admin_leaves_rate_unchanged() {
    let mut r = Relay::init(admin());
    r.set_fee_rate(admin(), 50).unwrap();
    assert_eq!(r.set_fee_rate(caller(), 900).unwrap_err(), Error::Unauthorized);
    assert_eq!(r.fee_rate, 50);
}

#[test]
fn claim_fee_drains_the_fee_purse() {
    let mut r = funded_relay(1000);
    r.set_fee_rate(admin(), 50).unwrap();
    r.call_on_behalf(admin(), target(), "entry".to_owned(), caller(), 100, 0).unwrap();
    let claimed = r.claim_fee(admin()).unwrap();
    assert_eq!(claimed, 5);
    assert_eq!(r.claim_fee(admin()).unwrap(), 0);
}

#[test]
fn claim_fee_by_non_admin_is_unauthorized() {
    let mut r = funded_relay(1000);
    assert_eq!(r.claim_fee(caller()).unwrap_err(), Error::Unauthorized);
}

#[test]
fn error_codes_are_stable() {
    assert_eq!(Error::Unauthorized.code(), 1);
    assert_eq!(Error::Unregistered.code(), 2);
    assert_eq!(Error::InsufficientBalance.code(), 3);
    assert_eq!(Error::InsufficientAmount.code(), 4);
}
