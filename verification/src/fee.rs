//! The fee policy: a per-mille rate applied to the sponsored gas amount.

use vstd::prelude::*;

verus! {

/// The denominator of the fee rate: a rate of `n` means `n` parts per 1000.
pub const FEE_RATE_DENOMINATOR: u32 = 1000;

/// What the fee comes to: the gas amount scaled by the per-mille rate,
/// rounded down.
pub open spec fn fee_of(gas_amount: u64, fee_rate: u32) -> int {
    (gas_amount * fee_rate) / (FEE_RATE_DENOMINATOR as int)
}

/// Computes the protocol fee for a sponsored call.
///
/// The multiplication is carried out in 128 bits, which cannot overflow for
/// 64-bit gas amounts and 32-bit rates, so no input is rejected.  The result
/// is returned in 128 bits as well: with a rate above 1000 per mille the fee
/// can exceed the gas amount itself.
pub fn compute_fee(gas_amount: u64, fee_rate: u32) -> (fee: u128)
    ensures
        fee == fee_of(gas_amount, fee_rate),
        fee < 0x1_0000_0000_0000_0000_0000_0000,
{
    proof {
        assert(0 <= (gas_amount as int) * (fee_rate as int) <= (u64::MAX as int) * (
        u32::MAX as int)) by (nonlinear_arith)
            requires
                0 <= gas_amount <= u64::MAX,
                0 <= fee_rate <= u32::MAX,
        ;
        vstd::arithmetic::div_mod::lemma_div_nonincreasing(
            (gas_amount as int) * (fee_rate as int),
            FEE_RATE_DENOMINATOR as int,
        );
    }
    (gas_amount as u128) * (fee_rate as u128) / (FEE_RATE_DENOMINATOR as u128)
}

/// A zero rate always yields a zero fee, whatever the gas amount.
pub proof fn lemma_zero_rate_zero_fee(gas_amount: u64)
    ensures
        fee_of(gas_amount, 0) == 0,
{
}

} // verus!
