//! Settlement: splitting a gross amount into the recipient's net and the
//! platform fee.

use vstd::prelude::*;
use crate::errors::SolmatesError;
use crate::BPS_DENOMINATOR;

verus! {

/// The two parts of a settled amount.
#[derive(Clone, Copy, Debug, PartialEq, Eq, Structural)]
pub struct Settlement {
    pub net: u64,
    pub fee: u64,
}

/// `floor(amount * bps / 10000)`.
pub open spec fn bps_of(amount: int, bps: int) -> int {
    amount * bps / (BPS_DENOMINATOR as int)
}

/// The settlement of `gross` at `fee_rate_bps`: the fee is the rounded-down
/// share, the net the rest; it fails only where the fee would exceed the gross
/// amount, that is at a rate above 100%.
pub open spec fn settlement(gross: u64, fee_rate_bps: u16) -> Result<Settlement, SolmatesError> {
    if bps_of(gross as int, fee_rate_bps as int) > gross {
        Err(SolmatesError::ArithmeticOverflow)
    } else {
        let fee = bps_of(gross as int, fee_rate_bps as int);
        Ok(Settlement { net: (gross - fee) as u64, fee: fee as u64 })
    }
}

/// Splits `gross` into net and fee. The product is taken in `u128`, where it
/// always fits; the subtraction is checked.
pub fn settle(gross: u64, fee_rate_bps: u16) -> (r: Result<Settlement, SolmatesError>)
    ensures
        r == settlement(gross, fee_rate_bps),
{
    let g = gross as u128;
    let rate = fee_rate_bps as u128;
    assert(g * rate <= u64::MAX as int * u16::MAX as int) by (nonlinear_arith)
        requires
            0 <= g <= u64::MAX,
            0 <= rate <= u16::MAX,
    ;
    let fee = g * rate / (BPS_DENOMINATOR as u128);
    if fee > g {
        return Err(SolmatesError::ArithmeticOverflow);
    }
    let fee = fee as u64;
    Ok(Settlement { net: gross - fee, fee })
}

/// Fee conservation: at any rate up to 100% every gross amount settles, and
/// the settlement splits it exactly, the fee being the rounded-down share.
pub proof fn lemma_fee_conservation(gross: u64, fee_rate_bps: u16)
    requires
        fee_rate_bps <= BPS_DENOMINATOR,
    ensures
        settlement(gross, fee_rate_bps) is Ok,
        settlement(gross, fee_rate_bps) matches Ok(s) ==> {
            &&& s.net + s.fee == gross
            &&& s.fee == gross * fee_rate_bps / 10000
            &&& s.fee <= gross
        },
{
    let g = gross as int;
    let r = fee_rate_bps as int;
    assert(g * r <= g * 10000) by (nonlinear_arith)
        requires
            0 <= g,
            r <= 10000,
    ;
    assert(g * r / 10000 <= g) by (nonlinear_arith)
        requires
            0 <= g * r <= g * 10000,
    ;
}

/// The smallest bid that may follow `highest`: `highest` raised by
/// `MIN_BID_INCREMENT_BPS`, rounded down.
pub open spec fn min_next_bid(highest: u64) -> int {
    highest + bps_of(highest as int, crate::MIN_BID_INCREMENT_BPS as int)
}

/// `min_next_bid`, computed in `u128`, where it always fits.
pub fn minimum_next_bid(highest: u64) -> (r: u128)
    ensures
        r == min_next_bid(highest),
{
    let h = highest as u128;
    assert(h * 500 <= u64::MAX as int * 500) by (nonlinear_arith)
        requires
            0 <= h <= u64::MAX,
    ;
    h + h * (crate::MIN_BID_INCREMENT_BPS as u128) / (BPS_DENOMINATOR as u128)
}

} // verus!
