use vstd::prelude::*;

verus! {

/// Base fee charged per required signature, in lamports.
pub const LAMPORTS_PER_SIGNATURE: u64 = 5000;

/// Divisor turning (compute units x price) into lamports.
pub const MICRO_LAMPORTS_PER_LAMPORT: u64 = 1_000_000;

/// The priority fee in lamports: the floored quotient of the widened product
/// of limit and price by one million, saturated at u64::MAX.
pub open spec fn spec_priority_fee(compute_unit_limit: u32, compute_unit_price: u64) -> u64 {
    let q = (compute_unit_limit as int * compute_unit_price as int)
        / MICRO_LAMPORTS_PER_LAMPORT as int;
    if q > u64::MAX { u64::MAX as u64 } else { q as u64 }
}

/// The total transaction fee in lamports: the priority fee plus the base fee
/// for the required signatures, saturated at u64::MAX.
pub open spec fn spec_transaction_fee(priority_fee: u64, num_required_signatures: u64) -> u64 {
    let t = priority_fee as int + num_required_signatures as int * LAMPORTS_PER_SIGNATURE as int;
    if t > u64::MAX { u64::MAX as u64 } else { t as u64 }
}

/// Compute the priority fee with a widened intermediate, so that the product
/// of a 32-bit limit and a 64-bit price cannot wrap; a quotient above
/// u64::MAX saturates there.
pub fn priority_fee(compute_unit_limit: u32, compute_unit_price: u64) -> (r: u64)
    ensures
        r == spec_priority_fee(compute_unit_limit, compute_unit_price),
{
    proof {
        assert(compute_unit_limit as int * compute_unit_price as int <= u32::MAX as int
            * u64::MAX as int) by (nonlinear_arith)
            requires
                compute_unit_limit <= u32::MAX,
                compute_unit_price <= u64::MAX,
        ;
    }
    let wide: u128 = (compute_unit_limit as u128 * compute_unit_price as u128)
        / MICRO_LAMPORTS_PER_LAMPORT as u128;
    if wide > u64::MAX as u128 {
        u64::MAX
    } else {
        wide as u64
    }
}

/// Compute the total transaction fee, saturating at u64::MAX.
pub fn transaction_fee(priority_fee: u64, num_required_signatures: u64) -> (r: u64)
    ensures
        r == spec_transaction_fee(priority_fee, num_required_signatures),
{
    proof {
        assert(num_required_signatures as int * LAMPORTS_PER_SIGNATURE as int <= u64::MAX as int
            * LAMPORTS_PER_SIGNATURE as int) by (nonlinear_arith)
            requires
                num_required_signatures <= u64::MAX,
        ;
    }
    let total: u128 = priority_fee as u128 + num_required_signatures as u128
        * LAMPORTS_PER_SIGNATURE as u128;
    if total > u64::MAX as u128 {
        u64::MAX
    } else {
        total as u64
    }
}

} // verus!
