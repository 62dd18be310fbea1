use vstd::prelude::*;

verus! {

/// Every way a request or a deferred step can fail.
#[derive(Debug, PartialEq, Eq)]
pub enum RouterError {
    /// The route holds no step.
    EmptyRoute,
    /// After the route, other than exactly one asset is left as output.
    MultipleOutputAssets,
    /// A bridge step was used where only exchange steps are supported.
    UnsupportedStepType,
    /// The referral fee percentage is above the allowed maximum.
    ReferralFeeTooHigh { max: u128, received: u128 },
    /// A balance went below the baseline captured before the route.
    AccountingUnderflow { current: u128, baseline: u128 },
    /// The recipient received less than the requested minimum.
    MinimumNotMet { minimum: u128, delta: u128 },
    /// A ledger tax was larger than the amount it is deducted from.
    TaxExceedsAmount { amount: u128, tax: u128 },
}

} // verus!
