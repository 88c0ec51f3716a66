//! Amount arithmetic: the fee of a deposit and the two shares of what is left.

use crate::error::ContractError;
use cosmwasm_std::DivideByZeroError;
use cosmwasm_std::OverflowError;
use cosmwasm_std::Uint128;
use vstd::prelude::*;

verus! {

/// `cosmwasm_std::OverflowError`, the error of the checked sum, difference
/// and product. Nothing is said of what it holds.
#[verifier::external_type_specification]
#[verifier::external_body]
pub struct ExOverflowError(OverflowError);

/// `cosmwasm_std::DivideByZeroError`, the error of the checked quotient.
/// Nothing is said of what it holds.
#[verifier::external_type_specification]
#[verifier::external_body]
pub struct ExDivideByZeroError(DivideByZeroError);

/// The denominator of a percentage.
pub const PCT_DENOM: u128 = 100;

/// `cosmwasm_std::Uint128::checked_add`: the sum where it fits in 128 bits,
/// an overflow error where it does not.
#[verifier::external_body]
pub(crate) fn checked_add(a: u128, b: u128) -> (r: Result<u128, OverflowError>)
    ensures
        match r {
            Ok(s) => s == a + b,
            Err(_) => a + b > u128::MAX,
        },
{
    match Uint128::new(a).checked_add(Uint128::new(b)) {
        Ok(sum) => Ok(sum.u128()),
        Err(e) => Err(e),
    }
}

/// `cosmwasm_std::Uint128::checked_sub`: the difference where it is not
/// negative, an overflow error where it is.
#[verifier::external_body]
pub(crate) fn checked_sub(a: u128, b: u128) -> (r: Result<u128, OverflowError>)
    ensures
        match r {
            Ok(d) => d == a - b,
            Err(_) => a < b,
        },
{
    match Uint128::new(a).checked_sub(Uint128::new(b)) {
        Ok(difference) => Ok(difference.u128()),
        Err(e) => Err(e),
    }
}

/// `cosmwasm_std::Uint128::checked_mul`: the product where it fits in 128
/// bits, an overflow error where it does not.
#[verifier::external_body]
fn checked_mul(a: u128, b: u128) -> (r: Result<u128, OverflowError>)
    ensures
        match r {
            Ok(p) => p == a * b,
            Err(_) => a * b > u128::MAX,
        },
{
    match Uint128::new(a).checked_mul(Uint128::new(b)) {
        Ok(product) => Ok(product.u128()),
        Err(e) => Err(e),
    }
}

/// `cosmwasm_std::Uint128::checked_div`: the quotient rounded down, or an
/// error where the divisor is zero.
#[verifier::external_body]
fn checked_div(a: u128, b: u128) -> (r: Result<u128, DivideByZeroError>)
    ensures
        match r {
            Ok(q) => b != 0 && q == a / b,
            Err(_) => b == 0,
        },
{
    match Uint128::new(a).checked_div(Uint128::new(b)) {
        Ok(quotient) => Ok(quotient.u128()),
        Err(e) => Err(e),
    }
}

/// The fee on a deposit: the given percentage of it, rounded down.
pub open spec fn fee_of(deposit: nat, fee_percent: nat) -> nat {
    deposit * fee_percent / 100
}

/// What is left of a deposit once the fee is taken.
pub open spec fn remainder_of(deposit: nat, fee_percent: nat) -> nat {
    (deposit - fee_of(deposit, fee_percent)) as nat
}

/// The first destination's share: half of the remainder, and the odd unit.
pub open spec fn first_share(deposit: nat, fee_percent: nat) -> nat {
    remainder_of(deposit, fee_percent) / 2 + remainder_of(deposit, fee_percent) % 2
}

/// The second destination's share: half of the remainder, rounded down.
pub open spec fn second_share(deposit: nat, fee_percent: nat) -> nat {
    remainder_of(deposit, fee_percent) / 2
}

/// A fee of at most 100 percent never exceeds the deposit.
pub proof fn lemma_fee_bounded(deposit: nat, fee_percent: nat)
    requires
        fee_percent <= 100,
    ensures
        fee_of(deposit, fee_percent) <= deposit,
{
    assert(deposit * fee_percent <= deposit * 100) by (nonlinear_arith)
        requires
            fee_percent <= 100,
    ;
}

/// How one deposit is divided.
#[derive(Clone, Copy, Debug, PartialEq, Eq)]
pub struct Split {
    /// The part that goes to the fee recipient.
    pub fee: u128,
    /// The deposit less the fee.
    pub remainder: u128,
    /// The part of the remainder that goes to the first destination.
    pub share1: u128,
    /// The part of the remainder that goes to the second destination.
    pub share2: u128,
}

/// Divides a deposit into fee and two shares. Fails with `InvalidParams`
/// exactly when the product of deposit and percentage leaves 128 bits.
pub fn split_amounts(deposit: u128, fee_percent: u128) -> (r: Result<Split, ContractError>)
    requires
        fee_percent <= 100,
    ensures
        r is Ok <==> deposit * fee_percent <= u128::MAX,
        r matches Ok(s) ==> {
            &&& s.fee == fee_of(deposit as nat, fee_percent as nat)
            &&& s.remainder == remainder_of(deposit as nat, fee_percent as nat)
            &&& s.share1 == first_share(deposit as nat, fee_percent as nat)
            &&& s.share2 == second_share(deposit as nat, fee_percent as nat)
            &&& s.fee + s.share1 + s.share2 == deposit
        },
        r matches Err(e) ==> e == ContractError::InvalidParams,
{
    let product = match checked_mul(deposit, fee_percent) {
        Ok(p) => p,
        Err(_) => {
            return Err(ContractError::InvalidParams);
        },
    };
    let fee = match checked_div(product, PCT_DENOM) {
        Ok(q) => q,
        Err(_) => {
            return Err(ContractError::InvalidParams);
        },
    };
    proof {
        lemma_fee_bounded(deposit as nat, fee_percent as nat);
    }
    let remainder: u128 = deposit - fee;
    let half: u128 = remainder / 2;
    let share1: u128 = half + remainder % 2;
    Ok(Split { fee, remainder, share1, share2: half })
}

} // verus!
