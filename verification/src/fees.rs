use vstd::prelude::*;
use crate::errors::SettlementError;
use vstd::arithmetic::div_mod::{
    lemma_div_is_ordered,
    lemma_div_multiples_vanish,
    lemma_div_pos_is_pos,
    lemma_fundamental_div_mod,
    lemma_mod_bound,
};
use vstd::arithmetic::mul::{
    lemma_mul_inequality,
    lemma_mul_inequality_converse,
    lemma_mul_is_commutative,
    lemma_mul_is_distributive_add,
};

verus! {

/// Fee rates are parts-per-10000: a rate of 10000 is 100%.
pub const BPS_DENOMINATOR: u64 = 10000;

/// The three-way split of a sale amount, as reported to the caller.
#[derive(Clone, Copy, Debug, PartialEq, Eq, Structural)]
pub struct SettlementReceipt {
    pub merchant_amount: u64,
    pub referrer_fee: u64,
    pub platform_fee: u64,
}

/// `floor(amount * rate / 10000)`: the fee a parts-per-10000 rate takes.
pub open spec fn spec_fee(amount: int, rate: int) -> int {
    amount * rate / 10000
}

/// The commission split. The platform fee is computed and taken first, the
/// referrer fee second, and the merchant receives the exact remainder. A zero
/// amount is rejected before any fee math; each multiplication is checked,
/// and a combined fee beyond the amount fails rather than underflowing.
pub open spec fn spec_split(amount: u64, platform_rate: u16, referrer_rate: u16) -> Result<
    SettlementReceipt,
    SettlementError,
> {
    if amount == 0 {
        Err(SettlementError::InvalidAmount)
    } else if amount * platform_rate > u64::MAX {
        Err(SettlementError::ArithmeticOverflow)
    } else if amount * referrer_rate > u64::MAX {
        Err(SettlementError::ArithmeticOverflow)
    } else if spec_fee(amount as int, platform_rate as int) + spec_fee(
        amount as int,
        referrer_rate as int,
    ) > amount {
        Err(SettlementError::ArithmeticOverflow)
    } else {
        Ok(
            SettlementReceipt {
                merchant_amount: (amount - spec_fee(amount as int, platform_rate as int)
                    - spec_fee(amount as int, referrer_rate as int)) as u64,
                referrer_fee: spec_fee(amount as int, referrer_rate as int) as u64,
                platform_fee: spec_fee(amount as int, platform_rate as int) as u64,
            },
        )
    }
}

/// A fee at a rate of at most 10000 parts-per-10000 never exceeds the amount.
pub proof fn lemma_fee_le_amount(amount: u64, rate: u16)
    requires
        rate <= BPS_DENOMINATOR,
    ensures
        0 <= spec_fee(amount as int, rate as int) <= amount,
{
    let a = amount as int;
    let r = rate as int;
    lemma_mul_inequality(r, 10000, a);
    lemma_mul_is_commutative(a, r);
    lemma_mul_is_commutative(10000, a);
    lemma_div_is_ordered(a * r, a * 10000, 10000);
    lemma_div_multiples_vanish(a, 10000);
    lemma_div_pos_is_pos(a * r, 10000);
    assert(a * r >= 0) by (nonlinear_arith)
        requires
            a >= 0,
            r >= 0,
    ;
}

/// When the combined rate stays within 10000 parts-per-10000, the two fees
/// together never exceed the amount: the merchant remainder cannot underflow.
pub proof fn lemma_fees_le_amount(amount: u64, platform_rate: u16, referrer_rate: u16)
    requires
        platform_rate + referrer_rate <= BPS_DENOMINATOR,
    ensures
        spec_fee(amount as int, platform_rate as int) + spec_fee(amount as int, referrer_rate as int)
            <= amount,
{
    let a = amount as int;
    let p = platform_rate as int;
    let r = referrer_rate as int;
    let pf = spec_fee(a, p);
    let rf = spec_fee(a, r);
    lemma_fundamental_div_mod(a * p, 10000);
    lemma_fundamental_div_mod(a * r, 10000);
    lemma_mod_bound(a * p, 10000);
    lemma_mod_bound(a * r, 10000);
    // a * p + a * r == a * (p + r) <= a * 10000
    lemma_mul_is_distributive_add(a, p, r);
    lemma_mul_inequality(p + r, 10000, a);
    lemma_mul_is_commutative(a, p + r);
    lemma_mul_is_commutative(10000, a);
    // 10000 * (pf + rf) <= a * p + a * r <= a * 10000
    lemma_mul_is_distributive_add(10000, pf, rf);
    lemma_mul_is_commutative(a, 10000);
    lemma_mul_is_commutative(pf + rf, 10000);
    lemma_mul_inequality_converse(pf + rf, a, 10000);
}

/// No value is created or destroyed: for every amount and pair of rates whose
/// sum stays within 10000 parts-per-10000, and whose products fit in a `u64`,
/// the split succeeds and its three parts sum to the amount exactly.
pub proof fn lemma_split_conserves_value(amount: u64, platform_rate: u16, referrer_rate: u16)
    requires
        amount > 0,
        platform_rate + referrer_rate <= BPS_DENOMINATOR,
        amount * platform_rate <= u64::MAX,
        amount * referrer_rate <= u64::MAX,
    ensures
        spec_split(amount, platform_rate, referrer_rate) matches Ok(s) && s.platform_fee
            + s.referrer_fee + s.merchant_amount == amount,
{
    lemma_fee_le_amount(amount, platform_rate);
    lemma_fee_le_amount(amount, referrer_rate);
    lemma_fees_le_amount(amount, platform_rate, referrer_rate);
}

/// Every split that succeeds conserves the amount: the three parts of its
/// receipt sum to the sale amount exactly, whatever the rates were.
pub proof fn lemma_receipt_conserves_amount(amount: u64, platform_rate: u16, referrer_rate: u16)
    requires
        platform_rate <= BPS_DENOMINATOR,
        referrer_rate <= BPS_DENOMINATOR,
        spec_split(amount, platform_rate, referrer_rate) is Ok,
    ensures
        spec_split(amount, platform_rate, referrer_rate) matches Ok(s) && s.platform_fee
            + s.referrer_fee + s.merchant_amount == amount,
{
    lemma_fee_le_amount(amount, platform_rate);
    lemma_fee_le_amount(amount, referrer_rate);
}

/// Computes the commission split with checked arithmetic, exactly as
/// `spec_split` states it.
pub fn compute_split(amount: u64, platform_rate: u16, referrer_rate: u16) -> (r: Result<
    SettlementReceipt,
    SettlementError,
>)
    requires
        platform_rate <= BPS_DENOMINATOR,
        referrer_rate <= BPS_DENOMINATOR,
    ensures
        r == spec_split(amount, platform_rate, referrer_rate),
{
    if amount == 0 {
        return Err(SettlementError::InvalidAmount);
    }
    let platform_product = match amount.checked_mul(platform_rate as u64) {
        Some(product) => product,
        None => {
            return Err(SettlementError::ArithmeticOverflow);
        },
    };
    let platform_fee = platform_product / BPS_DENOMINATOR;
    let referrer_product = match amount.checked_mul(referrer_rate as u64) {
        Some(product) => product,
        None => {
            return Err(SettlementError::ArithmeticOverflow);
        },
    };
    let referrer_fee = referrer_product / BPS_DENOMINATOR;
    proof {
        lemma_fee_le_amount(amount, platform_rate);
        lemma_fee_le_amount(amount, referrer_rate);
    }
    let remainder = amount - platform_fee;
    let merchant_amount = match remainder.checked_sub(referrer_fee) {
        Some(value) => value,
        None => {
            return Err(SettlementError::ArithmeticOverflow);
        },
    };
    Ok(SettlementReceipt { merchant_amount, referrer_fee, platform_fee })
}

} // verus!
