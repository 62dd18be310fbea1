use vstd::prelude::*;
use crate::asset::AssetInfo;
use crate::route::SwapOperation;

verus! {

/// Settings given when the router is set up.
#[derive(Debug, PartialEq, Eq)]
pub struct InstantiateMsg {
    pub terraswap_factory: String,
}

/// A token transfer to the router that carries an encoded hook message.
#[derive(Debug, PartialEq, Eq)]
pub struct ReceiveMsg {
    pub sender: String,
    pub amount: u128,
    pub msg: Vec<u8>,
}

/// Requests that the router executes, from callers and from itself.
#[derive(Debug, PartialEq, Eq)]
#[allow(inconsistent_fields)]
pub enum ExecuteMsg {
    Receive(ReceiveMsg),
    /// Execute a route and deliver its output.
    ExecuteSwapOperations {
        operations: Vec<SwapOperation>,
        minimum_receive: Option<u128>,
        to: Option<String>,
    },
    /// Deferred step: exchange all offered funds held by the router.
    ExecuteSwapOperation { operation: SwapOperation, to: Option<String> },
    /// Deferred step: check that the receiver got at least the minimum.
    AssertMinimumReceive {
        asset_info: AssetInfo,
        prev_balance: u128,
        minimum_receive: u128,
        receiver: String,
    },
    /// Execute a route with an optional referral fee and deliver its output.
    ExecuteTeleport {
        operations: Vec<SwapOperation>,
        minimum_receive: Option<u128>,
        ref_address: Option<String>,
        ref_fee_pct: Option<u128>,
        to: Option<String>,
    },
    /// Deferred step: forward what the route produced, minus the referral fee.
    ExecuteSendOrBridgeFromSelfWithFee {
        asset_info: AssetInfo,
        prev_balance: u128,
        receiver: String,
        ref_fee_pct: Option<u128>,
        ref_address: Option<String>,
        memo: Option<String>,
    },
}

/// Requests carried inside a token transfer to the router.
#[derive(Debug, PartialEq, Eq)]
pub enum Cw20HookMsg {
    ExecuteSwapOperations {
        operations: Vec<SwapOperation>,
        minimum_receive: Option<u128>,
        to: Option<String>,
    },
    ExecuteTeleport {
        operations: Vec<SwapOperation>,
        minimum_receive: Option<u128>,
        ref_address: Option<String>,
        ref_fee_pct: Option<u128>,
        to: Option<String>,
    },
}

/// Read-only requests.
#[derive(Debug, PartialEq, Eq)]
pub enum QueryMsg {
    Config {},
    SimulateSwapOperations { offer_amount: u128, operations: Vec<SwapOperation> },
}

#[derive(Debug, PartialEq, Eq)]
pub struct ConfigResponse {
    pub terraswap_factory: String,
}

#[derive(Debug, PartialEq, Eq)]
pub struct SimulateSwapOperationsResponse {
    pub amount: u128,
}

} // verus!
