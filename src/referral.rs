use vstd::prelude::*;
use crate::error::RouterError;

verus! {

/// The largest referral fee, in percent of the route's output.
pub const REFERRAL_PCT_MAX: u128 = 10;

/// A referral is active when a fee and a non-empty referral address are given.
pub open spec fn referral_active(ref_fee_pct: Option<u128>, ref_address: Option<String>) -> bool {
    ref_fee_pct is Some && ref_address is Some && ref_address->0@.len() > 0
}

/// What the referral check returns.
pub open spec fn referral_check(ref_fee_pct: Option<u128>, ref_address: Option<String>) -> Result<
    bool,
    RouterError,
> {
    if referral_active(ref_fee_pct, ref_address) && ref_fee_pct->0 > REFERRAL_PCT_MAX {
        Err(RouterError::ReferralFeeTooHigh { max: REFERRAL_PCT_MAX, received: ref_fee_pct->0 })
    } else {
        Ok(referral_active(ref_fee_pct, ref_address))
    }
}

/// Decides whether a referral is active; refuses a fee above the maximum
/// (the maximum itself is allowed).
pub fn check_referral_params_valid(ref_fee_pct: Option<u128>, ref_address: &Option<String>) -> (r:
    Result<bool, RouterError>)
    ensures
        r == referral_check(ref_fee_pct, *ref_address),
{
    match (ref_fee_pct, ref_address) {
        (Some(pct), Some(addr)) => {
            if addr.as_str().is_empty() {
                Ok(false)
            } else if pct > REFERRAL_PCT_MAX {
                Err(RouterError::ReferralFeeTooHigh { max: REFERRAL_PCT_MAX, received: pct })
            } else {
                Ok(true)
            }
        },
        _ => Ok(false),
    }
}

/// An active referral never carries a fee above the maximum.
pub proof fn lemma_active_referral_fee_bounded(ref_fee_pct: Option<u128>, ref_address: Option<String>)
    ensures
        referral_check(ref_fee_pct, ref_address) == Ok::<bool, RouterError>(true) ==> ref_fee_pct->0
            <= REFERRAL_PCT_MAX,
        referral_check(ref_fee_pct, ref_address) is Err ==> ref_fee_pct->0 > REFERRAL_PCT_MAX,
        ref_address is Some && ref_address->0@.len() == 0 ==> referral_check(ref_fee_pct, ref_address)
            == Ok::<bool, RouterError>(false),
{
}

} // verus!
