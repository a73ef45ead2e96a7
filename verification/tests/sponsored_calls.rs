use relay::errors::Error;
use relay::forwarder::get_caller;
use relay::identity::Principal;
use relay::identity::TargetId;
use relay::relay::Relay;

fn admin() -> Principal {
    Principal::new(1)
}

fn owner() -> Principal {
    Principal::new(2)
}

fn caller() -> Principal {
    Principal::new(3)
}

fn target() -> TargetId {
    TargetId::new(7)
}

/// A relay with the target registered for the owner, `balance` deposited on
/// the owner's account, and a fee rate of 50 per mille.
fn prepared_relay(balance: u64) -> Relay {
    let mut r = Relay::init(admin());
    r.register(admin(), target(), owner()).unwrap();
    r.fund_purse(balance);
    r.deposit(owner()).unwrap();
    r.set_fee_rate(admin(), 50).unwrap();
    r
}

#[test]
fn sponsored_call_debits_gas_plus_fee() {
    let mut r = prepared_relay(1000);
    let ev = r.call_on_behalf(admin(), target(), "entry".to_owned(), caller(), 100, 0).unwrap();
    assert_eq!(ev.contract_hash, target());
    assert_eq!(ev.owner, owner());
    assert_eq!(ev.caller, caller());
    assert_eq!(ev.entry_point, "entry");
    assert_eq!(ev.gas_amount, 100);
    assert_eq!(ev.cep18_hash, None);
    // fee = 100 * 50 / 1000 = 5; the owner pays gas and fee
    assert_eq!(r.read(owner()), 895);
    // the paymaster was reimbursed 100 and the fee purse took 5
    assert_eq!(r.deposit_purse, 895);
    assert_eq!(r.fee_purse, 5);
}

#[test]
fn insufficient_balance_leaves_everything_unchanged() {
    let mut r = prepared_relay(50);
    let err = r.call_on_behalf(admin(), target(), "entry".to_owned(), caller(), 100, 0);
    assert_eq!(err.unwrap_err(), Error::InsufficientBalance);
    assert_eq!(r.read(owner()), 50);
    assert_eq!(r.deposit_purse, 50);
    assert_eq!(r.fee_purse, 0);
    assert_eq!(r.get_purse(), 0);
}

#[test]
fn exact_balance_is_enough() {
    let mut r = prepared_relay(105);
    r.call_on_behalf(admin(), target(), "entry".to_owned(), caller(), 100, 0).unwrap();
    assert_eq!(r.read(owner()), 0);
}

#[test]
fn by_non_admin_is_unauthorized() {
    let mut r = prepared_relay(1000);
    let err = r.call_on_behalf(caller(), target(), "entry".to_owned(), caller(), 100, 0);
    assert_eq!(err.unwrap_err(), Error::Unauthorized);
    assert_eq!(r.read(owner()), 1000);
}

#[test]
fn unregistered_target_is_refused() {
    let mut r = prepared_relay(1000);
    let err = r.call_on_behalf(admin(), TargetId::new(8), "entry".to_owned(), caller(), 100, 0);
    assert_eq!(err.unwrap_err(), Error::Unregistered);
    assert_eq!(r.read(owner()), 1000);
}

#[test]
fn zero_fee_rate_skips_the_fee() {
    let mut r = prepared_relay(1000);
    r.set_fee_rate(admin(), 0).unwrap();
    r.call_on_behalf(admin(), target(), "entry".to_owned(), caller(), 100, 0).unwrap();
    assert_eq!(r.read(owner()), 900);
    assert_eq!(r.fee_purse, 0);
}

#[test]
fn payment_comes_from_the_relay_purse() {
    let mut r = prepared_relay(1000);
    r.fund_purse(40);
    let ev = r.call_on_behalf(admin(), target(), "entry".to_owned(), caller(), 100, 30).unwrap();
    assert_eq!(ev.gas_amount, 100);
    assert_eq!(r.get_purse(), 10);
    assert_eq!(r.read(owner()), 895);
}

#[test]
fn payment_beyond_the_relay_purse_is_refused() {
    let mut r = prepared_relay(1000);
    r.fund_purse(20);
    let err = r.call_on_behalf(admin(), target(), "entry".to_owned(), caller(), 100, 30);
    assert_eq!(err.unwrap_err(), Error::InsufficientBalance);
    assert_eq!(r.read(owner()), 1000);
    assert_eq!(r.get_purse(), 20);
    assert_eq!(r.fee_purse, 0);
}

#[test]
fn forwarded_caller_is_trusted_only_from_the_relay() {
    let relay_pkg = TargetId::new(40);
    let other_pkg = TargetId::new(41);
    let direct = Principal::new(50);
    let forwarded = Principal::new(51);
    assert_eq!(get_caller(Some(relay_pkg), relay_pkg, Some(forwarded), direct), forwarded);
    assert_eq!(get_caller(Some(other_pkg), relay_pkg, Some(forwarded), direct), direct);
    assert_eq!(get_caller(None, relay_pkg, Some(forwarded), direct), direct);
    assert_eq!(get_caller(None, relay_pkg, None, direct), direct);
}
