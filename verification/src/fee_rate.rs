//! Fee rates, held in satoshis per 1000 weight units.

use vstd::prelude::*;

use crate::error::FeeRateError;

verus! {

/// A fee rate, stored as satoshis per 1000 weight units (sat/kwu).
///
/// One virtual byte is four weight units, so a rate given in satoshis per
/// virtual byte converts to sat/kwu by multiplying with 250.
#[derive(Clone, Copy, Debug, PartialEq, Eq)]
pub struct FeeRate {
    sat_per_kwu: u64,
}

impl FeeRate {
    /// The rate in satoshis per 1000 weight units.
    pub closed spec fn spec_sat_per_kwu(self) -> u64 {
        self.sat_per_kwu
    }

    /// Builds a rate from satoshis per virtual byte.
    ///
    /// The conversion to sat/kwu multiplies by 250; when that product does
    /// not fit in 64 bits there is no representable rate, and the single
    /// arithmetic-overflow error is returned.
    pub fn from_sat_per_vb(sat_per_vb: u64) -> (r: Result<FeeRate, FeeRateError>)
        ensures
            sat_per_vb * 250 <= u64::MAX ==> (r matches Ok(f) && f.spec_sat_per_kwu() == sat_per_vb
                * 250),
            sat_per_vb * 250 > u64::MAX ==> r == Result::<FeeRate, FeeRateError>::Err(
                FeeRateError::ArithmeticOverflow,
            ),
    {
        match sat_per_vb.checked_mul(250) {
            Some(sat_per_kwu) => Ok(FeeRate { sat_per_kwu }),
            None => Err(FeeRateError::ArithmeticOverflow),
        }
    }

    /// Builds a rate directly from satoshis per 1000 weight units.
    pub fn from_sat_per_kwu(sat_per_kwu: u64) -> (r: FeeRate)
        ensures
            r.spec_sat_per_kwu() == sat_per_kwu,
    {
        FeeRate { sat_per_kwu }
    }

    /// The rate in satoshis per 1000 weight units.
    pub fn to_sat_per_kwu(&self) -> (r: u64)
        ensures
            r == self.spec_sat_per_kwu(),
    {
        self.sat_per_kwu
    }

    /// The rate in satoshis per virtual byte, rounded down.
    pub fn to_sat_per_vb_floor(&self) -> (r: u64)
        ensures
            r == self.spec_sat_per_kwu() / 250,
    {
        self.sat_per_kwu / 250
    }

    /// The rate in satoshis per virtual byte, rounded up.
    pub fn to_sat_per_vb_ceil(&self) -> (r: u64)
        ensures
            r == (self.spec_sat_per_kwu() + 249) / 250,
    {
        let q = self.sat_per_kwu / 250;
        let rem = self.sat_per_kwu % 250;
        if rem == 0 {
            proof {
                assert((self.sat_per_kwu + 249) / 250 == q) by (nonlinear_arith)
                    requires
                        q == self.sat_per_kwu / 250,
                        self.sat_per_kwu % 250 == 0,
                ;
            }
            q
        } else {
            proof {
                assert((self.sat_per_kwu + 249) / 250 == q + 1) by (nonlinear_arith)
                    requires
                        q == self.sat_per_kwu / 250,
                        rem == self.sat_per_kwu % 250,
                        0 < rem < 250,
                ;
            }
            q + 1
        }
    }
}

} // verus!
