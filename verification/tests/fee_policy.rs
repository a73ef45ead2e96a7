use relay::fee::compute_fee;

#[test]
fn fee_is_per_mille_of_gas() {
    assert_eq!(compute_fee(1000, 50), 50);
}

#[test]
fn fee_rounds_down() {
    assert_eq!(compute_fee(999, 50), 49);
    assert_eq!(compute_fee(19, 50), 0);
    assert_eq!(compute_fee(20, 50), 1);
}

#[test]
fn zero_rate_means_zero_fee() {
    assert_eq!(compute_fee(0, 0), 0);
    assert_eq!(compute_fee(1, 0), 0);
    assert_eq!(compute_fee(1000, 0), 0);
    assert_eq!(compute_fee(u64::MAX, 0), 0);
}

#[test]
fn rate_above_denominator_exceeds_gas() {
    assert_eq!(compute_fee(100, 1500), 150);
}

#[test]
fn widest_inputs_do_not_overflow() {
    let fee = compute_fee(u64::MAX, u32::MAX);
    assert_eq!(fee, u64::MAX as u128 * u32::MAX as u128 / 1000);
}
