use vstd::prelude::*;
use crate::error::MarketplaceError;

verus! {

/// Basis points in a whole: 10000 bps is 100%.
pub const BPS_DENOMINATOR: u64 = 10000;

/// The marketplace's cut of `price` at `fee_bps` basis points, rounded down.
pub open spec fn fee_of(price: int, fee_bps: int) -> int {
    (price * fee_bps) / 10000
}

/// The fee computation stays within `u64`.
pub open spec fn split_fits(price: u64, fee_bps: u16) -> bool {
    price * fee_bps <= u64::MAX
}

/// The split of `price` at `fee_bps`: the fee and the seller's remainder, or
/// `MathOverflowError` where the product leaves `u64` or the fee exceeds
/// the price.
pub open spec fn payment_split(price: u64, fee_bps: u16) -> Result<(u64, u64), MarketplaceError> {
    let fee = fee_of(price as int, fee_bps as int);
    if split_fits(price, fee_bps) && fee <= price {
        Ok((fee as u64, (price - fee) as u64))
    } else {
        Err(MarketplaceError::MathOverflowError)
    }
}

/// Splits `price` into the treasury's fee and the seller's remainder.
pub fn split_payment(price: u64, fee_bps: u16) -> (r: Result<(u64, u64), MarketplaceError>)
    ensures
        r == payment_split(price, fee_bps),
{
    let rate = fee_bps as u64;
    let product = match price.checked_mul(rate) {
        Some(p) => p,
        None => return Err(MarketplaceError::MathOverflowError),
    };
    let fee = product / BPS_DENOMINATOR;
    if fee > price {
        return Err(MarketplaceError::MathOverflowError);
    }
    Ok((fee, price - fee))
}

/// The fee to redeem a listing early at `price` and `fee_bps`: half the
/// purchase fee, rounded down, or `MathOverflowError` where the product
/// leaves `u64`.
pub open spec fn redemption_fee(price: u64, fee_bps: u16) -> Result<u64, MarketplaceError> {
    if split_fits(price, fee_bps) {
        Ok((fee_of(price as int, fee_bps as int) / 2) as u64)
    } else {
        Err(MarketplaceError::MathOverflowError)
    }
}

/// Computes the fee to redeem a listing early.
pub fn redeem_fee(price: u64, fee_bps: u16) -> (r: Result<u64, MarketplaceError>)
    ensures
        r == redemption_fee(price, fee_bps),
{
    let rate = fee_bps as u64;
    match price.checked_mul(rate) {
        Some(p) => Ok((p / BPS_DENOMINATOR) / 2),
        None => Err(MarketplaceError::MathOverflowError),
    }
}

/// For a rate of at most 100%, the split succeeds exactly when the product
/// of price and rate fits in `u64`; then the fee and the seller's share add
/// up to the price, and the fee is the price times the rate over 10000,
/// rounded down.
pub proof fn lemma_split_adds_up(price: u64, fee_bps: u16)
    requires
        fee_bps <= 10000,
    ensures
        payment_split(price, fee_bps) is Ok <==> split_fits(price, fee_bps),
        payment_split(price, fee_bps) matches Ok((fee, seller_amount)) ==> {
            &&& fee + seller_amount == price
            &&& fee == (price * fee_bps) / 10000
        },
{
    assert(0 <= price * fee_bps <= price * 10000) by (nonlinear_arith)
        requires fee_bps <= 10000;
}

/// At a rate of exactly 100% the whole price goes to the fee.
pub proof fn lemma_full_rate_takes_all(price: u64)
    requires
        split_fits(price, 10000),
    ensures
        payment_split(price, 10000) == Ok::<(u64, u64), MarketplaceError>((price, 0)),
{
}

} // verus!
