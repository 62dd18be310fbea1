//! Routing core of a swap aggregator: validates chains of exchange steps,
//! compiles them into deferred self-invocations, splits referral fees,
//! guards minimum output and replays routes against venue quotes.

pub mod asset;
pub mod error;
pub mod route;
pub mod referral;
pub mod msg;
pub mod compile;
pub mod settle;
pub mod simulate;
