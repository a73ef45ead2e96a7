use relay::errors::Error;
use relay::events::CallOnBehalf;
use relay::events::Deposit;
use relay::events::Register;
use relay::identity::Principal;
use relay::identity::TargetId;
use relay::permission::require;
use relay::permission::Permission;

#[test]
fn the_installer_passes_the_guard() {
    let installer = Principal::new(1);
    assert!(require(Permission::Installer, installer, installer).is_ok());
}

#[test]
fn anyone_else_is_unauthorized() {
    let installer = Principal::new(1);
    let other = Principal::new(2);
    assert_eq!(require(Permission::Installer, other, installer).unwrap_err(), Error::Unauthorized);
}

#[test]
fn register_event_carries_its_fields() {
    let ev = Register::new(TargetId::new(7), Principal::new(2));
    assert_eq!(ev.contract_hash, TargetId::new(7));
    assert_eq!(ev.owner, Principal::new(2));
}

#[test]
fn deposit_event_carries_its_fields() {
    let ev = Deposit::new(Principal::new(2), 1000);
    assert_eq!(ev.owner, Principal::new(2));
    assert_eq!(ev.amount, 1000);
}

#[test]
fn call_on_behalf_event_carries_its_fields() {
    let ev = CallOnBehalf::new(
        TargetId::new(7),
        Principal::new(2),
        Principal::new(3),
        "entry".to_owned(),
        100,
        Some(TargetId::new(9)),
    );
    assert_eq!(ev.contract_hash, TargetId::new(7));
    assert_eq!(ev.owner, Principal::new(2));
    assert_eq!(ev.caller, Principal::new(3));
    assert_eq!(ev.entry_point, "entry");
    assert_eq!(ev.gas_amount, 100);
    assert_eq!(ev.cep18_hash, Some(TargetId::new(9)));
}
