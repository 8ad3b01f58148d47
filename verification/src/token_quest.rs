//! Safe arithmetic and the fee/staking policy record.
//!
//! The four `safe_*` operations are the only arithmetic primitives the ledger
//! layer is meant to build on: each one reports a specific error instead of
//! wrapping. Multiplication and division follow a fixed-point convention:
//! every product is de-scaled by [`DECIMALS`] and every quotient's numerator
//! is re-scaled by it, so chained multiply/divide results stay at the ledger's
//! implied four fractional digits.

use vstd::arithmetic::div_mod::lemma_div_multiples_vanish;
use vstd::prelude::*;

use crate::identity::Identity;

verus! {

/// Fixed-point scaling factor: four implied fractional digits.
pub const DECIMALS: u128 = 10000;

/// Upper bound on a policy's fee percentage, at two-decimal fixed point
/// (300 means 3.00%).
pub const MAX_FEE_PERCENTAGE: u64 = 300;

/// Staking period, in seconds.
pub const STAKING_PERIOD: i64 = 60;

/// Locking period, in seconds.
pub const LOCKING_PERIOD: i64 = 30;

/// Errors of the safe-arithmetic primitives and of policy initialization.
#[derive(Clone, Copy, Debug, PartialEq, Eq, Structural)]
pub enum ErrorCode {
    AdditionOverflow,
    SubtractionOverflow,
    MultiplicationOverflow,
    DivisionByZero,
    FeeTooHigh,
    InvalidFeeTaker,
    InvalidToken,
}

/// Checked addition: the exact sum, or an error where it would not fit.
pub fn safe_add(a: u128, b: u128) -> (r: Result<u128, ErrorCode>)
    ensures
        a + b <= u128::MAX ==> r == Ok::<u128, ErrorCode>((a + b) as u128),
        a + b > u128::MAX ==> r == Err::<u128, ErrorCode>(ErrorCode::AdditionOverflow),
{
    match a.checked_add(b) {
        Some(c) => Ok(c),
        None => Err(ErrorCode::AdditionOverflow),
    }
}

/// Checked subtraction: the exact difference, or an error where the
/// subtrahend exceeds the minuend.
pub fn safe_sub(a: u128, b: u128) -> (r: Result<u128, ErrorCode>)
    ensures
        b <= a ==> r == Ok::<u128, ErrorCode>((a - b) as u128),
        b > a ==> r == Err::<u128, ErrorCode>(ErrorCode::SubtractionOverflow),
{
    match a.checked_sub(b) {
        Some(c) => Ok(c),
        None => Err(ErrorCode::SubtractionOverflow),
    }
}

/// What `safe_mul` returns: zero short-circuits, an overflowing product is an
/// error, and an in-range product is de-scaled by [`DECIMALS`].
pub open spec fn spec_safe_mul(a: u128, b: u128) -> Result<u128, ErrorCode> {
    if a == 0 || b == 0 {
        Ok(0)
    } else if a * b > u128::MAX {
        Err(ErrorCode::MultiplicationOverflow)
    } else {
        Ok(((a * b) / (DECIMALS as int)) as u128)
    }
}

/// Fixed-point multiplication: `(a * b) / DECIMALS`, with an explicit error
/// where the raw product overflows. A zero operand short-circuits to zero.
pub fn safe_mul(a: u128, b: u128) -> (r: Result<u128, ErrorCode>)
    ensures
        r == spec_safe_mul(a, b),
{
    if a == 0 || b == 0 {
        return Ok(0);
    }
    let c = match a.checked_mul(b) {
        Some(c) => c,
        None => {
            return Err(ErrorCode::MultiplicationOverflow);
        },
    };
    // Inverse re-check of the product; never trips, since `c` is exact.
    if c / a != b {
        proof {
            lemma_div_multiples_vanish(b as int, a as int);
        }
        return Err(ErrorCode::MultiplicationOverflow);
    }
    Ok(c / DECIMALS)
}

/// What `safe_div` returns: division by zero is an error, any other quotient
/// has its numerator re-scaled by [`DECIMALS`] first.
pub open spec fn spec_safe_div(a: u128, b: u128) -> Result<u128, ErrorCode> {
    if b == 0 {
        Err(ErrorCode::DivisionByZero)
    } else {
        Ok(((a * DECIMALS) / (b as int)) as u128)
    }
}

/// Fixed-point division: `(a * DECIMALS) / b`, with an explicit error on a
/// zero divisor. The re-scaled numerator must fit in 128 bits.
pub fn safe_div(a: u128, b: u128) -> (r: Result<u128, ErrorCode>)
    requires
        a * DECIMALS <= u128::MAX,
    ensures
        r == spec_safe_div(a, b),
{
    if b == 0 {
        return Err(ErrorCode::DivisionByZero);
    }
    Ok((a * DECIMALS) / b)
}

/// The fee/staking policy record, created once and immutable afterwards in
/// the operations covered here.
#[derive(Clone, Copy, Debug, PartialEq, Eq, Structural)]
pub struct TokenQuest {
    pub owner: Identity,
    pub bal: u64,
    pub fee_percentage: u64,
    pub fee_taker: Identity,
    pub accepted_token_mint: Identity,
    pub user_tax_on_deposit: bool,
    pub user_tax_on_withdraw: bool,
    pub last_deposit_ts: i64,
}

/// One client's stake, as the staking extension records it.
#[derive(Clone, Copy, Debug)]
pub struct ClientStake {
    pub amount: u64,
    pub stake_timestamp: i64,
    pub is_native: bool,
}

/// Outcome of policy initialization: a fee above [`MAX_FEE_PERCENTAGE`], a
/// null fee taker, or a null accepted asset is reported — in that order —
/// with the record untouched; otherwise every field is set and the caller
/// becomes the policy's owner.
pub open spec fn spec_initialize(
    record: TokenQuest,
    payer: Identity,
    initial_fee_percentage: u64,
    fee_taker: Identity,
    accepted_token_mint: Identity,
    user_tax_on_deposit: bool,
    user_tax_on_withdraw: bool,
) -> (TokenQuest, Result<(), ErrorCode>) {
    if initial_fee_percentage > MAX_FEE_PERCENTAGE {
        (record, Err(ErrorCode::FeeTooHigh))
    } else if fee_taker == Identity::spec_null() {
        (record, Err(ErrorCode::InvalidFeeTaker))
    } else if accepted_token_mint == Identity::spec_null() {
        (record, Err(ErrorCode::InvalidToken))
    } else {
        (
            TokenQuest {
                owner: payer,
                bal: 0,
                fee_percentage: initial_fee_percentage,
                fee_taker,
                accepted_token_mint,
                user_tax_on_deposit,
                user_tax_on_withdraw,
                last_deposit_ts: 0,
            },
            Ok(()),
        )
    }
}

/// One-shot setup of the policy record: validates the fee bound and the two
/// identities, then fills every field, with the authenticated payer as
/// owner. A rejected configuration leaves the record exactly as it was.
pub fn initialize(
    record: &mut TokenQuest,
    payer: Identity,
    initial_fee_percentage: u64,
    fee_taker: Identity,
    accepted_token_mint: Identity,
    user_tax_on_deposit: bool,
    user_tax_on_withdraw: bool,
) -> (r: Result<(), ErrorCode>)
    ensures
        (*final(record), r) == spec_initialize(
            *old(record),
            payer,
            initial_fee_percentage,
            fee_taker,
            accepted_token_mint,
            user_tax_on_deposit,
            user_tax_on_withdraw,
        ),
        r == Ok::<(), ErrorCode>(()) <==> initial_fee_percentage <= MAX_FEE_PERCENTAGE && fee_taker
            != Identity::spec_null() && accepted_token_mint != Identity::spec_null(),
        r is Err ==> *final(record) == *old(record),
        r is Ok ==> final(record).owner == payer && final(record).fee_percentage
            == initial_fee_percentage && final(record).last_deposit_ts == 0,
{
    if initial_fee_percentage > MAX_FEE_PERCENTAGE {
        return Err(ErrorCode::FeeTooHigh);
    }
    if fee_taker.is_null() {
        return Err(ErrorCode::InvalidFeeTaker);
    }
    if accepted_token_mint.is_null() {
        return Err(ErrorCode::InvalidToken);
    }

    record.owner = payer;
    record.bal = 0;
    record.fee_percentage = initial_fee_percentage;
    record.fee_taker = fee_taker;
    record.accepted_token_mint = accepted_token_mint;
    record.user_tax_on_deposit = user_tax_on_deposit;
    record.user_tax_on_withdraw = user_tax_on_withdraw;
    record.last_deposit_ts = 0;

    Ok(())
}

} // verus!
