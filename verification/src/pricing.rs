//! The arithmetic of the exchange: issue amounts, prices and holder counts,
//! every step checked.

use crate::error::DecenseError;
use vstd::prelude::*;

verus! {

/// Factor by which a price is scaled: a price of one native unit per token
/// is stored as this number.
pub const PRICE_SCALE: u64 = 1_000_000_000;

/// Base units in one whole token.
pub const BASE_UNITS_PER_TOKEN: u64 = 10_000;

/// Decimal places of every token that a seller launches.
pub const TOKEN_DECIMALS: u8 = 4;

/// What a seller pays the platform's treasury to launch a token.
pub const INITIALIZATION_FEE: u64 = 1_000_000_000;

/// Share of proceeds that is set down for the seller's treasury.
pub const USER_TREASURY_PERCENTAGE: u8 = 50;

/// Share of proceeds that is set down for liquidation.
pub const LIQUIDATE_PERCENTAGE: u8 = 50;

/// A mathematical result, if a `u64` can hold it.
pub open spec fn fitting(value: int) -> Option<u64> {
    if 0 <= value <= u64::MAX {
        Some(value as u64)
    } else {
        None
    }
}

/// What a checked computation returns: the value, or `MathError` where none
/// fits.
pub open spec fn checked(value: Option<u64>) -> Result<u64, DecenseError> {
    match value {
        Some(v) => Ok(v),
        None => Err(DecenseError::MathError),
    }
}

/// The number of base units in so many whole tokens.
pub open spec fn base_units_of(tokens: u64) -> Option<u64> {
    fitting(tokens * BASE_UNITS_PER_TOKEN)
}

/// The first price of a token: the whole number of native units per token,
/// scaled. There is none for a supply of zero.
pub open spec fn initial_price_of(market_valuation: u64, supply: u64) -> Option<u64> {
    if supply == 0 {
        None
    } else {
        fitting((market_valuation / supply) * PRICE_SCALE)
    }
}

/// How far the asked price lies from the current one.
pub open spec fn price_gap(current_price: u64, asked_price: u64) -> int {
    if asked_price >= current_price {
        asked_price - current_price
    } else {
        current_price - asked_price
    }
}

/// By how much a trade moves the price: the gap per token in the vault,
/// rounded down, times the tokens traded. There is none for an empty vault.
pub open spec fn price_delta_of(
    current_price: u64,
    asked_price: u64,
    vault_balance: u64,
    quantity: u64,
) -> Option<u64> {
    if vault_balance == 0 {
        None
    } else {
        fitting((price_gap(current_price, asked_price) / (vault_balance as int)) * quantity)
    }
}

/// The price after a trade: the current price moved by the delta towards the
/// asked price.
pub open spec fn price_after_trade(
    current_price: u64,
    asked_price: u64,
    vault_balance: u64,
    quantity: u64,
) -> Option<u64> {
    match price_delta_of(current_price, asked_price, vault_balance, quantity) {
        Some(delta) => if asked_price > current_price {
            fitting(current_price + delta)
        } else {
            fitting(current_price - delta)
        },
        None => None,
    }
}

/// The holder count after tokens reach a trader who held `balance_before`:
/// one more if that was nothing.
pub open spec fn holders_after_acquiring(holders: u64, balance_before: u64) -> Option<u64> {
    if balance_before == 0 {
        fitting(holders + 1)
    } else {
        Some(holders)
    }
}

/// The holder count after tokens left a trader who now holds
/// `balance_after`: one fewer if that is nothing.
pub open spec fn holders_after_releasing(holders: u64, balance_after: u64) -> Option<u64> {
    if balance_after == 0 {
        fitting(holders - 1)
    } else {
        Some(holders)
    }
}

/// Converts whole tokens to base units.
pub fn base_units(tokens: u64) -> (units: Result<u64, DecenseError>)
    ensures
        units == checked(base_units_of(tokens)),
{
    tokens.checked_mul(BASE_UNITS_PER_TOKEN).ok_or(DecenseError::MathError)
}

/// Computes the first price of a token.
pub fn initial_price(market_valuation: u64, supply: u64) -> (price: Result<u64, DecenseError>)
    ensures
        price == checked(initial_price_of(market_valuation, supply)),
{
    let per_token = market_valuation.checked_div(supply).ok_or(DecenseError::MathError)?;
    per_token.checked_mul(PRICE_SCALE).ok_or(DecenseError::MathError)
}

/// Computes by how much a trade moves the price.
pub fn price_delta(current_price: u64, asked_price: u64, vault_balance: u64, quantity: u64) -> (delta:
    Result<u64, DecenseError>)
    ensures
        delta == checked(price_delta_of(current_price, asked_price, vault_balance, quantity)),
{
    let gap = if asked_price >= current_price {
        asked_price - current_price
    } else {
        current_price - asked_price
    };
    let per_token = gap.checked_div(vault_balance).ok_or(DecenseError::MathError)?;
    per_token.checked_mul(quantity).ok_or(DecenseError::MathError)
}

/// Computes the price after a trade.
pub fn reprice(current_price: u64, asked_price: u64, vault_balance: u64, quantity: u64) -> (price:
    Result<u64, DecenseError>)
    ensures
        price == checked(price_after_trade(current_price, asked_price, vault_balance, quantity)),
{
    let delta = price_delta(current_price, asked_price, vault_balance, quantity)?;
    let moved = if asked_price > current_price {
        current_price.checked_add(delta)
    } else {
        current_price.checked_sub(delta)
    };
    moved.ok_or(DecenseError::MathError)
}

/// Counts a trader in when tokens reach an empty balance.
pub fn count_after_acquiring(holders: u64, balance_before: u64) -> (count: Result<
    u64,
    DecenseError,
>)
    ensures
        count == checked(holders_after_acquiring(holders, balance_before)),
{
    if balance_before == 0 {
        holders.checked_add(1).ok_or(DecenseError::MathError)
    } else {
        Ok(holders)
    }
}

/// Counts a trader out when the balance that tokens left is empty.
pub fn count_after_releasing(holders: u64, balance_after: u64) -> (count: Result<u64, DecenseError>)
    ensures
        count == checked(holders_after_releasing(holders, balance_after)),
{
    if balance_after == 0 {
        holders.checked_sub(1).ok_or(DecenseError::MathError)
    } else {
        Ok(holders)
    }
}

/// A trade never moves the price away from the asked price: an asked price
/// above the current one does not lower it, one below does not raise it,
/// and one equal to it leaves it where it is.
pub proof fn lemma_price_moves_towards_asked(
    current_price: u64,
    asked_price: u64,
    vault_balance: u64,
    quantity: u64,
)
    requires
        price_after_trade(current_price, asked_price, vault_balance, quantity) is Some,
    ensures
        ({
            let new_price = price_after_trade(
                current_price,
                asked_price,
                vault_balance,
                quantity,
            )->0;
            &&& asked_price > current_price ==> new_price >= current_price
            &&& asked_price < current_price ==> new_price <= current_price
            &&& asked_price == current_price ==> new_price == current_price
        }),
{
    let gap = price_gap(current_price, asked_price);
    let vault = vault_balance as int;
    let traded = quantity as int;
    assert(gap / vault >= 0 && (gap == 0 ==> gap / vault == 0)) by (nonlinear_arith)
        requires
            gap >= 0,
            vault > 0,
    ;
    let per_token = gap / vault;
    assert(per_token * traded >= 0 && (per_token == 0 ==> per_token * traded == 0))
        by (nonlinear_arith)
        requires
            per_token >= 0,
            traded >= 0,
    ;
}

/// Where a trade moves the price at all, it moves it in the direction of
/// the asked price. The delta is above zero exactly when tokens are traded
/// and the gap is at least one unit for each token in the vault.
pub proof fn lemma_price_moves_strictly(
    current_price: u64,
    asked_price: u64,
    vault_balance: u64,
    quantity: u64,
)
    requires
        price_after_trade(current_price, asked_price, vault_balance, quantity) is Some,
        quantity > 0,
        price_gap(current_price, asked_price) >= vault_balance,
    ensures
        ({
            let new_price = price_after_trade(
                current_price,
                asked_price,
                vault_balance,
                quantity,
            )->0;
            &&& price_delta_of(current_price, asked_price, vault_balance, quantity)->0 > 0
            &&& asked_price > current_price ==> new_price > current_price
            &&& asked_price < current_price ==> new_price < current_price
        }),
{
    let gap = price_gap(current_price, asked_price);
    let vault = vault_balance as int;
    let traded = quantity as int;
    assert(gap / vault >= 1) by (nonlinear_arith)
        requires
            gap >= vault,
            vault > 0,
    ;
    let per_token = gap / vault;
    assert(per_token * traded >= 1) by (nonlinear_arith)
        requires
            per_token >= 1,
            traded >= 1,
    ;
}

} // verus!
