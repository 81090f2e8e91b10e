//! The platform's share of a released bounty.

use vstd::prelude::*;

verus! {

/// The platform fee in basis points: 3.00%.
pub const PLATFORM_FEE_BPS: u64 = 300;

/// Basis points in a whole.
pub const BPS_DENOMINATOR: u64 = 10000;

/// The platform fee on a bounty, rounded down.
pub open spec fn fee_of(bounty_amount: int) -> int {
    bounty_amount * PLATFORM_FEE_BPS / BPS_DENOMINATOR as int
}

/// What the agent receives of a bounty: all that the fee leaves.
pub open spec fn agent_share_of(bounty_amount: int) -> int {
    bounty_amount - fee_of(bounty_amount)
}

/// The platform fee on `bounty_amount`, computed without overflow for every
/// amount.
pub fn platform_fee(bounty_amount: u64) -> (r: u64)
    ensures
        r == fee_of(bounty_amount as int),
        r <= bounty_amount,
{
    assert(bounty_amount as u128 * PLATFORM_FEE_BPS as u128 <= u64::MAX as u128 * 300)
        by (nonlinear_arith)
        requires
            bounty_amount <= u64::MAX,
    ;
    let wide: u128 = bounty_amount as u128 * PLATFORM_FEE_BPS as u128;
    let fee: u128 = wide / BPS_DENOMINATOR as u128;
    assert(fee <= bounty_amount) by (nonlinear_arith)
        requires
            wide == bounty_amount * 300,
            fee == wide / 10000,
    ;
    fee as u64
}

/// Splits a bounty into the platform fee and the agent's payment, in that
/// order. The two always add up to the bounty.
pub fn split_bounty(bounty_amount: u64) -> (r: (u64, u64))
    ensures
        r.0 == fee_of(bounty_amount as int),
        r.1 == agent_share_of(bounty_amount as int),
        r.0 + r.1 == bounty_amount,
{
    let fee = platform_fee(bounty_amount);
    (fee, bounty_amount - fee)
}

} // verus!
