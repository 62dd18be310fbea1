use vstd::prelude::*;
use crate::asset::AssetInfo;
use crate::error::RouterError;
use crate::msg::ExecuteMsg;
use crate::referral::{check_referral_params_valid, referral_active, referral_check};
use crate::route::{has_bridge, route_check, validate, SwapOperation};

verus! {

/// A validated route, ready to be compiled into deferred steps.
#[derive(Debug, PartialEq, Eq)]
pub struct RoutePlan {
    /// The exchange steps, in order.
    pub swaps: Vec<SwapOperation>,
    /// The asset that the last exchange step delivers.
    pub target: AssetInfo,
    /// Whether the output stays with the router for a forwarding step.
    pub hold_output: bool,
}

/// What planning a plain route returns.
pub open spec fn swap_plan_check(ops: Seq<SwapOperation>) -> Result<bool, RouterError> {
    match route_check(ops) {
        Err(e) => Err(e),
        Ok(_) => Ok(false),
    }
}

/// What planning a teleport returns: the route is validated as any route
/// is, bridge steps included, then the referral is checked; the output is held
/// back when the referral is active.
pub open spec fn teleport_plan_check(
    ops: Seq<SwapOperation>,
    ref_fee_pct: Option<u128>,
    ref_address: Option<String>,
) -> Result<bool, RouterError> {
    match route_check(ops) {
        Err(e) => Err(e),
        Ok(_) => referral_check(ref_fee_pct, ref_address),
    }
}

/// A plan whose exchange steps are `swaps`, that delivers the target of the
/// last of them, and holds the output back or not as `hold` says.
pub open spec fn plan_of(p: RoutePlan, swaps: Seq<SwapOperation>, hold: bool) -> bool {
    &&& p.swaps@ == swaps
    &&& swaps.len() > 0
    &&& p.target == swaps.last().target()
    &&& p.hold_output == hold
}

/// The plan check's outcome matches `check`, and a plan is built from `swaps`.
pub open spec fn plan_outcome(
    r: Result<RoutePlan, RouterError>,
    check: Result<bool, RouterError>,
    swaps: Seq<SwapOperation>,
) -> bool {
    match r {
        Ok(p) => check is Ok && plan_of(p, swaps, check->Ok_0),
        Err(e) => check == Err::<bool, RouterError>(e),
    }
}

/// Validates a plain route, whose output goes straight to the recipient.
pub fn plan_swap_operations(operations: Vec<SwapOperation>) -> (r: Result<RoutePlan, RouterError>)
    ensures
        plan_outcome(r, swap_plan_check(operations@), operations@),
{
    match validate(&operations) {
        Err(e) => Err(e),
        Ok(()) => {
            let target = operations[operations.len() - 1].get_target_asset_info();
            Ok(RoutePlan { swaps: operations, target, hold_output: false })
        },
    }
}

/// Validates a teleport: the route must pass validation, which refuses
/// bridge steps since bridging is not available yet, and its referral must be
/// valid. Only an active referral holds the output back.
pub fn plan_teleport_operations(
    operations: Vec<SwapOperation>,
    ref_fee_pct: Option<u128>,
    ref_address: &Option<String>,
) -> (r: Result<RoutePlan, RouterError>)
    ensures
        plan_outcome(r, teleport_plan_check(operations@, ref_fee_pct, *ref_address), operations@),
{
    match validate(&operations) {
        Err(e) => {
            return Err(e);
        },
        Ok(()) => {},
    }
    let referral_is_active = match check_referral_params_valid(ref_fee_pct, ref_address) {
        Err(e) => {
            return Err(e);
        },
        Ok(b) => b,
    };
    let target = operations[operations.len() - 1].get_target_asset_info();
    Ok(RoutePlan { swaps: operations, target, hold_output: referral_is_active })
}

/// The deferred exchange step at position `i`: only the last one names the
/// recipient, and only when the output is not held back.
pub open spec fn exchange_step(plan: RoutePlan, to: String, i: int) -> ExecuteMsg {
    ExecuteMsg::ExecuteSwapOperation {
        operation: plan.swaps@[i],
        to: if i == plan.swaps@.len() - 1 && !plan.hold_output {
            Some(to)
        } else {
            None
        },
    }
}

/// The number of deferred steps compiled from `plan`.
pub open spec fn step_count(plan: RoutePlan, minimum_receive: Option<u128>) -> int {
    plan.swaps@.len() + (if plan.hold_output {
        1int
    } else {
        0int
    }) + (if minimum_receive is Some {
        1int
    } else {
        0int
    })
}

/// Compiles a plan into deferred steps: the exchanges first, then, when the
/// output is held back, a forwarding step with the router's balance before the
/// route as baseline, then, when a minimum is asked, a check against the
/// recipient's balance before the route.
pub fn compile_route(
    plan: RoutePlan,
    to: String,
    minimum_receive: Option<u128>,
    ref_fee_pct: Option<u128>,
    ref_address: Option<String>,
    self_balance: u128,
    receiver_balance: u128,
) -> (r: Vec<ExecuteMsg>)
    ensures
        r@.len() == step_count(plan, minimum_receive),
        forall|i: int| 0 <= i < plan.swaps@.len() ==> r@[i] == exchange_step(plan, to, i),
        plan.hold_output ==> r@[plan.swaps@.len() as int]
            == (ExecuteMsg::ExecuteSendOrBridgeFromSelfWithFee {
            asset_info: plan.target,
            prev_balance: self_balance,
            receiver: to,
            ref_fee_pct,
            ref_address,
            memo: None,
        }),
        minimum_receive is Some ==> r@.last() == (ExecuteMsg::AssertMinimumReceive {
            asset_info: plan.target,
            prev_balance: receiver_balance,
            minimum_receive: minimum_receive->0,
            receiver: to,
        }),
{
    let n = plan.swaps.len();
    let mut r: Vec<ExecuteMsg> = Vec::new();
    let mut i: usize = 0;
    while i < n
        invariant
            n == plan.swaps@.len(),
            i <= n,
            r@.len() == i,
            forall|k: int| 0 <= k < i ==> r@[k] == exchange_step(plan, to, k),
        decreases n - i,
    {
        let step_to = if i == n - 1 && !plan.hold_output {
            Some(to.clone())
        } else {
            None
        };
        r.push(ExecuteMsg::ExecuteSwapOperation { operation: plan.swaps[i].clone(), to: step_to });
        i = i + 1;
    }
    if plan.hold_output {
        r.push(
            ExecuteMsg::ExecuteSendOrBridgeFromSelfWithFee {
                asset_info: plan.target.clone(),
                prev_balance: self_balance,
                receiver: to.clone(),
                ref_fee_pct,
                ref_address,
                memo: None,
            },
        );
    }
    if let Some(minimum) = minimum_receive {
        r.push(
            ExecuteMsg::AssertMinimumReceive {
                asset_info: plan.target,
                prev_balance: receiver_balance,
                minimum_receive: minimum,
                receiver: to,
            },
        );
    }
    r
}

/// The address that receives a route's output: the one asked for, else the
/// sender of the request.
pub fn recipient_or_sender(to: Option<String>, sender: String) -> (r: String)
    ensures
        r == (if to is Some {
            to->0
        } else {
            sender
        }),
{
    match to {
        Some(addr) => addr,
        None => sender,
    }
}

/// A teleport compiles into one exchange step per step of the route, then
/// a forwarding step exactly when the referral is active, then a minimum check
/// exactly when a minimum is asked; the last exchange names the recipient
/// exactly when the referral is inactive, so that the output stays with the
/// router until the fee is split.
pub proof fn lemma_teleport_step_layout(
    ops: Seq<SwapOperation>,
    ref_fee_pct: Option<u128>,
    ref_address: Option<String>,
    plan: RoutePlan,
    to: String,
    minimum_receive: Option<u128>,
)
    requires
        teleport_plan_check(ops, ref_fee_pct, ref_address) is Ok,
        plan_of(plan, ops, teleport_plan_check(ops, ref_fee_pct, ref_address)->Ok_0),
    ensures
        step_count(plan, minimum_receive) == ops.len() + (if referral_active(
            ref_fee_pct,
            ref_address,
        ) {
            1int
        } else {
            0int
        }) + (if minimum_receive is Some {
            1int
        } else {
            0int
        }),
        exchange_step(plan, to, ops.len() - 1)->ExecuteSwapOperation_to == (if referral_active(
            ref_fee_pct,
            ref_address,
        ) {
            None
        } else {
            Some(to)
        }),
        forall|i: int|
            0 <= i < ops.len() - 1 ==> (#[trigger] exchange_step(plan, to, i))->ExecuteSwapOperation_to
                is None,
{
}

/// A teleport that holds a bridge step is refused: bridging is not
/// available, so such a route never plans, whatever its referral.
pub proof fn lemma_teleport_refuses_bridges(
    ops: Seq<SwapOperation>,
    ref_fee_pct: Option<u128>,
    ref_address: Option<String>,
)
    requires
        has_bridge(ops),
    ensures
        teleport_plan_check(ops, ref_fee_pct, ref_address) == Err::<bool, RouterError>(
            RouterError::UnsupportedStepType,
        ),
{
}

} // verus!
