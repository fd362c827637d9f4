//! The fee arithmetic: how an amount is divided between fee collector and recipient.

use vstd::prelude::*;

verus! {

/// Numerator of the fee rate: the fee is two hundredths of the amount.
pub const FEE_NUMERATOR: u64 = 2;

/// Denominator of the fee rate.
pub const FEE_DENOMINATOR: u64 = 100;

/// The fee owed on `amount`: two hundredths of it, rounded down.
pub open spec fn fee_of(amount: int) -> int {
    (amount * 2) / 100
}

/// What is left of `amount` for the recipient once the fee is taken. The
/// fraction that rounding takes off the fee stays in here.
pub open spec fn net_of(amount: int) -> int {
    amount - fee_of(amount)
}

/// Whether twice the amount leaves the 64-bit range, so that no split is computed.
pub open spec fn split_overflows(amount: int) -> bool {
    amount * 2 > u64::MAX
}

/// The two parts of one transfer.
#[derive(Clone, Copy, Debug, PartialEq, Eq, Structural)]
pub struct SplitResult {
    pub fee_amount: u64,
    pub net_amount: u64,
}

/// The split of `amount`, where twice the amount fits in 64 bits.
pub open spec fn split_of(amount: u64) -> SplitResult
    recommends
        !split_overflows(amount as int),
{
    SplitResult { fee_amount: fee_of(amount as int) as u64, net_amount: net_of(amount as int) as u64 }
}

/// Divides `amount` into fee and net amount with overflow-checked arithmetic.
/// Returns `None` exactly when twice the amount does not fit in 64 bits.
pub fn compute_split(amount: u64) -> (res: Option<SplitResult>)
    ensures
        res == (if split_overflows(amount as int) {
            None
        } else {
            Some(split_of(amount))
        }),
        res matches Some(split) ==> {
            &&& split.fee_amount == fee_of(amount as int)
            &&& split.net_amount == amount - split.fee_amount
            &&& split.fee_amount + split.net_amount == amount
        },
{
    let scaled: u64 = match amount.checked_mul(FEE_NUMERATOR) {
        Some(scaled) => scaled,
        None => { return None; },
    };
    let fee_amount: u64 = match scaled.checked_div(FEE_DENOMINATOR) {
        Some(fee_amount) => fee_amount,
        None => { return None; },
    };
    let net_amount: u64 = match amount.checked_sub(fee_amount) {
        Some(net_amount) => net_amount,
        None => { return None; },
    };
    Some(SplitResult { fee_amount, net_amount })
}

/// Below two to the power of 63 an amount has a split, and fee and net amount
/// add up to the amount exactly.
pub proof fn law_split_is_exact(amount: u64)
    requires
        amount < 0x8000_0000_0000_0000,
    ensures
        !split_overflows(amount as int),
        split_of(amount).fee_amount + split_of(amount).net_amount == amount,
{
}

/// The fee is the floor of two hundredths of the amount: one hundred times the
/// fee is at most twice the amount and misses it by less than one hundred. The
/// net amount is the amount less the fee, so the fee never exceeds the amount.
pub proof fn law_fee_is_floor(amount: u64)
    requires
        !split_overflows(amount as int),
    ensures
        100 * split_of(amount).fee_amount <= 2 * amount < 100 * split_of(amount).fee_amount + 100,
        split_of(amount).net_amount == amount - split_of(amount).fee_amount,
        split_of(amount).fee_amount <= amount,
{
}

/// From two to the power of 63 on, no split is computed.
pub proof fn law_large_amount_overflows(amount: u64)
    ensures
        split_overflows(amount as int) <==> amount >= 0x8000_0000_0000_0000,
{
}

} // verus!
