use teleport_router::asset::{Asset, AssetInfo};
use teleport_router::compile::{compile_route, plan_swap_operations, plan_teleport_operations, RoutePlan};
use teleport_router::error::RouterError;
use teleport_router::msg::ExecuteMsg;
use teleport_router::referral::check_referral_params_valid;
use teleport_router::route::SwapOperation;
use teleport_router::settle::{
    amount_after_tax, assert_minimum_receive, create_transfer_msg, execute_send_from_self_with_fee, split_fee, Payment,
    TransferMsg,
};

fn native(denom: &str) -> AssetInfo {
    AssetInfo::NativeToken { denom: denom.to_string() }
}

fn token(addr: &str) -> AssetInfo {
    AssetInfo::Token { contract_addr: addr.to_string() }
}

fn pair(offer: AssetInfo, ask: AssetInfo) -> SwapOperation {
    SwapOperation::TerraSwap { offer_asset_info: offer, ask_asset_info: ask }
}

fn pay(info: AssetInfo, amount: u128) -> Payment {
    Payment { asset: Asset { info, amount }, recipient: "bob".to_string() }
}

fn three_steps() -> Vec<SwapOperation> {
    vec![
        SwapOperation::NativeSwap { offer_denom: "uusd".to_string(), ask_denom: "uluna".to_string() },
        pair(native("uluna"), token("asset0001")),
        pair(token("asset0001"), native("ukrw")),
    ]
}

#[test]
fn referral_fee_above_max_fails() {
    assert_eq!(
        check_referral_params_valid(Some(11), &Some("x".to_string())),
        Err(RouterError::ReferralFeeTooHigh { max: 10, received: 11 })
    );
}

#[test]
fn referral_fee_at_max_is_active() {
    assert_eq!(check_referral_params_valid(Some(10), &Some("x".to_string())), Ok(true));
}

#[test]
fn referral_empty_address_is_inactive() {
    assert_eq!(check_referral_params_valid(Some(5), &Some("".to_string())), Ok(false));
    assert_eq!(check_referral_params_valid(Some(50), &Some("".to_string())), Ok(false));
}

#[test]
fn referral_missing_parts_are_inactive() {
    assert_eq!(check_referral_params_valid(None, &Some("x".to_string())), Ok(false));
    assert_eq!(check_referral_params_valid(Some(5), &None), Ok(false));
}

#[test]
fn compile_three_steps_without_referral() {
    let plan = plan_teleport_operations(three_steps(), None, &None).unwrap();
    assert!(!plan.hold_output);
    assert_eq!(plan.target, native("ukrw"));
    let msgs = compile_route(plan, "recipient".to_string(), None, None, None, 7, 8);
    assert_eq!(msgs.len(), 3);
    let ops = three_steps();
    assert_eq!(msgs[0], ExecuteMsg::ExecuteSwapOperation { operation: ops[0].clone(), to: None });
    assert_eq!(msgs[1], ExecuteMsg::ExecuteSwapOperation { operation: ops[1].clone(), to: None });
    assert_eq!(
        msgs[2],
        ExecuteMsg::ExecuteSwapOperation { operation: ops[2].clone(), to: Some("recipient".to_string()) }
    );
}

#[test]
fn compile_three_steps_with_referral() {
    let plan = plan_teleport_operations(three_steps(), Some(5), &Some("ref".to_string())).unwrap();
    assert!(plan.hold_output);
    let msgs = compile_route(plan, "recipient".to_string(), None, Some(5), Some("ref".to_string()), 70, 8);
    assert_eq!(msgs.len(), 4);
    let ops = three_steps();
    assert_eq!(msgs[2], ExecuteMsg::ExecuteSwapOperation { operation: ops[2].clone(), to: None });
    assert_eq!(
        msgs[3],
        ExecuteMsg::ExecuteSendOrBridgeFromSelfWithFee {
            asset_info: native("ukrw"),
            prev_balance: 70,
            receiver: "recipient".to_string(),
            ref_fee_pct: Some(5),
            ref_address: Some("ref".to_string()),
            memo: None,
        }
    );
}

#[test]
fn compile_with_referral_and_minimum() {
    let plan = plan_teleport_operations(three_steps(), Some(5), &Some("ref".to_string())).unwrap();
    let msgs = compile_route(plan, "recipient".to_string(), Some(100), Some(5), Some("ref".to_string()), 70, 8);
    assert_eq!(msgs.len(), 5);
    assert_eq!(
        msgs[4],
        ExecuteMsg::AssertMinimumReceive {
            asset_info: native("ukrw"),
            prev_balance: 8,
            minimum_receive: 100,
            receiver: "recipient".to_string(),
        }
    );
}

#[test]
fn plain_route_with_minimum() {
    let plan = plan_swap_operations(three_steps()).unwrap();
    let msgs = compile_route(plan, "me".to_string(), Some(1), None, None, 0, 3);
    assert_eq!(msgs.len(), 4);
    let ops = three_steps();
    assert_eq!(
        msgs[2],
        ExecuteMsg::ExecuteSwapOperation { operation: ops[2].clone(), to: Some("me".to_string()) }
    );
    assert_eq!(
        msgs[3],
        ExecuteMsg::AssertMinimumReceive {
            asset_info: native("ukrw"),
            prev_balance: 3,
            minimum_receive: 1,
            receiver: "me".to_string(),
        }
    );
}

#[test]
fn plan_errors() {
    assert_eq!(plan_swap_operations(vec![]), Err(RouterError::EmptyRoute));
    assert_eq!(plan_teleport_operations(vec![], None, &None), Err(RouterError::EmptyRoute));
    assert_eq!(
        plan_teleport_operations(three_steps(), Some(11), &Some("ref".to_string())),
        Err(RouterError::ReferralFeeTooHigh { max: 10, received: 11 })
    );
    let bridge_only = vec![SwapOperation::WormHoleBridge {
        asset_info: token("asset0001"),
        wallet_address_on_target_chain: "0xabc".to_string(),
    }];
    assert_eq!(plan_teleport_operations(bridge_only, None, &None), Err(RouterError::UnsupportedStepType));
}

#[test]
fn teleport_refuses_bridge_steps() {
    let mut ops = three_steps();
    ops.push(SwapOperation::TerraBridge {
        asset_info: native("ukrw"),
        bridge_contract_address: "bridge".to_string(),
        wallet_address_on_target_chain: "0xabc".to_string(),
    });
    assert_eq!(plan_teleport_operations(ops, None, &None), Err(RouterError::UnsupportedStepType));
    let ops = vec![
        pair(native("uusd"), token("asset0001")),
        SwapOperation::WormHoleBridge {
            asset_info: token("asset0001"),
            wallet_address_on_target_chain: "0xabc".to_string(),
        },
    ];
    assert_eq!(plan_teleport_operations(ops, Some(5), &Some("ref".to_string())), Err(RouterError::UnsupportedStepType));
}

#[test]
fn teleport_plan_keeps_whole_route() {
    let plan = plan_teleport_operations(three_steps(), None, &None).unwrap();
    assert_eq!(plan, RoutePlan { swaps: three_steps(), target: native("ukrw"), hold_output: false });
}

#[test]
fn forward_splits_thousand_at_ten_percent() {
    let payments =
        execute_send_from_self_with_fee(native("uusd"), 500, 1500, "bob".to_string(), Some(10), &Some("ref".to_string())).unwrap();
    assert_eq!(
        payments,
        vec![pay(native("uusd"), 900), pay(native("uusd"), 100)]
    );
}

#[test]
fn forward_dust_fee_goes_to_recipient() {
    // 3 * 10 / 100 rounds down to 0: everything goes to the recipient
    let payments =
        execute_send_from_self_with_fee(token("asset0001"), 0, 3, "bob".to_string(), Some(10), &Some("ref".to_string())).unwrap();
    assert_eq!(payments, vec![pay(token("asset0001"), 3)]);
}

#[test]
fn forward_zero_cut_sends_single_transfer() {
    let payments =
        execute_send_from_self_with_fee(token("asset0001"), 40, 40, "bob".to_string(), Some(10), &Some("ref".to_string())).unwrap();
    assert_eq!(payments, vec![pay(token("asset0001"), 0)]);
}

#[test]
fn forward_without_referral_sends_everything() {
    let payments = execute_send_from_self_with_fee(native("uusd"), 10, 1010, "bob".to_string(), Some(10), &None).unwrap();
    assert_eq!(payments, vec![pay(native("uusd"), 1000)]);
}

#[test]
fn forward_balance_below_baseline_fails() {
    assert_eq!(
        execute_send_from_self_with_fee(native("uusd"), 10, 9, "bob".to_string(), None, &None),
        Err(RouterError::AccountingUnderflow { current: 9, baseline: 10 })
    );
}

#[test]
fn forward_fee_too_high_fails() {
    assert_eq!(
        execute_send_from_self_with_fee(native("uusd"), 0, 1000, "bob".to_string(), Some(20), &Some("ref".to_string())),
        Err(RouterError::ReferralFeeTooHigh { max: 10, received: 20 })
    );
}

#[test]
fn split_fee_uses_ratio() {
    assert_eq!(split_fee(1000, 10, true), (900, 100));
    assert_eq!(split_fee(999, 10, true), (900, 99));
    assert_eq!(split_fee(3, 10, true), (3, 0));
    assert_eq!(split_fee(19, 10, true), (18, 1));
    assert_eq!(split_fee(0, 10, true), (0, 0));
    assert_eq!(split_fee(1000, 0, true), (1000, 0));
    assert_eq!(split_fee(1000, 10, false), (1000, 0));
    assert_eq!(split_fee(u128::MAX, 10, true), (u128::MAX - u128::MAX / 10, u128::MAX / 10));
}

#[test]
fn minimum_not_met_fails() {
    assert_eq!(
        assert_minimum_receive(1000, 100, 1050),
        Err(RouterError::MinimumNotMet { minimum: 100, delta: 50 })
    );
}

#[test]
fn minimum_met_at_boundary() {
    assert_eq!(assert_minimum_receive(1000, 100, 1100), Ok(()));
}

#[test]
fn minimum_balance_below_baseline_fails() {
    assert_eq!(
        assert_minimum_receive(1000, 100, 900),
        Err(RouterError::AccountingUnderflow { current: 900, baseline: 1000 })
    );
}

#[test]
fn transfer_of_token_ignores_tax() {
    let asset = Asset { info: token("asset0001"), amount: 500 };
    assert_eq!(
        create_transfer_msg(&asset, "bob".to_string(), 7),
        Ok(TransferMsg::Cw20Transfer {
            contract_addr: "asset0001".to_string(),
            recipient: "bob".to_string(),
            amount: 500,
        })
    );
}

#[test]
fn transfer_of_native_deducts_tax() {
    let asset = Asset { info: native("uusd"), amount: 500 };
    assert_eq!(
        create_transfer_msg(&asset, "bob".to_string(), 7),
        Ok(TransferMsg::BankSend { to_address: "bob".to_string(), denom: "uusd".to_string(), amount: 493 })
    );
    assert_eq!(
        create_transfer_msg(&asset, "bob".to_string(), 501),
        Err(RouterError::TaxExceedsAmount { amount: 500, tax: 501 })
    );
}

#[test]
fn tax_is_paid_by_native_assets_only() {
    assert_eq!(amount_after_tax(&Asset { info: native("uusd"), amount: 100 }, 3), Ok(97));
    assert_eq!(amount_after_tax(&Asset { info: token("asset0001"), amount: 100 }, 3), Ok(100));
    assert_eq!(
        amount_after_tax(&Asset { info: native("uusd"), amount: 2 }, 3),
        Err(RouterError::TaxExceedsAmount { amount: 2, tax: 3 })
    );
}
