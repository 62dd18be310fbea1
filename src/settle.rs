use vstd::prelude::*;
use crate::asset::{Asset, AssetInfo};
use crate::error::RouterError;
use crate::referral::{check_referral_params_valid, referral_active, referral_check};

verus! {

/// Relies on cosmwasm_std::Uint128::multiply_ratio: `value * numerator /
/// denominator`, rounded down, with a 256-bit product. It panics on a zero
/// denominator and on a result that does not fit in 128 bits.
#[verifier::external_body]
fn multiply_ratio(value: u128, numerator: u128, denominator: u128) -> (r: u128)
    requires
        denominator > 0,
        (value as int) * (numerator as int) / (denominator as int) <= u128::MAX,
    ensures
        r == (value as int) * (numerator as int) / (denominator as int),
{
    cosmwasm_std::Uint128::new(value).multiply_ratio(numerator, denominator).u128()
}

/// The referral cut of `received` under a fee of `pct` percent, rounded down.
pub open spec fn referral_cut(received: int, pct: int) -> int {
    received * pct / 100
}

/// How `received` is split between the recipient and the referral: the
/// referral takes `pct` percent rounded down, the recipient the rest; when the
/// cut rounds to nothing the recipient takes everything.
pub open spec fn fee_split(received: u128, pct: u128, active: bool) -> (u128, u128) {
    if active && pct > 0 {
        let fee = referral_cut(received as int, pct as int);
        ((received - fee) as u128, fee as u128)
    } else {
        (received, 0)
    }
}

/// An amount to send, and to whom.
#[derive(Debug, PartialEq, Eq)]
pub struct Payment {
    pub asset: Asset,
    pub recipient: String,
}

/// The transfers that forward `received` of `info`: the recipient's share,
/// then the referral fee when it is not zero. Both go to `receiver`: the
/// forwarding step sends the fee to the same address as the share, not to the
/// referral address.
pub open spec fn forward_payments(
    info: AssetInfo,
    received: u128,
    pct: u128,
    active: bool,
    receiver: String,
) -> Seq<Payment> {
    let (share, fee) = fee_split(received, pct, active);
    let first = seq![Payment { asset: Asset { info, amount: share }, recipient: receiver }];
    if fee > 0 {
        first.push(Payment { asset: Asset { info, amount: fee }, recipient: receiver })
    } else {
        first
    }
}

/// What the forwarding step returns.
pub open spec fn forward_outcome(
    info: AssetInfo,
    prev_balance: u128,
    self_balance: u128,
    receiver: String,
    ref_fee_pct: Option<u128>,
    ref_address: Option<String>,
) -> Result<Seq<Payment>, RouterError> {
    match referral_check(ref_fee_pct, ref_address) {
        Err(e) => Err(e),
        Ok(active) => if self_balance < prev_balance {
            Err(RouterError::AccountingUnderflow { current: self_balance, baseline: prev_balance })
        } else {
            Ok(
                forward_payments(
                    info,
                    (self_balance - prev_balance) as u128,
                    if ref_fee_pct is Some {
                        ref_fee_pct->0
                    } else {
                        0
                    },
                    active,
                    receiver,
                ),
            )
        },
    }
}

/// Splits `received` between the recipient and the referral.
pub fn split_fee(received: u128, pct: u128, active: bool) -> (r: (u128, u128))
    requires
        active ==> pct <= 100,
    ensures
        r == fee_split(received, pct, active),
        r.0 + r.1 == received,
        r.1 * 100 <= received * pct,
{
    if active && pct > 0 {
        proof {
            assert(received * pct <= received * 100) by (nonlinear_arith)
                requires
                    pct <= 100,
            ;
            assert(received * pct / 100 <= received) by (nonlinear_arith)
                requires
                    received * pct <= received * 100,
            ;
        }
        let fee = multiply_ratio(received, pct, 100);
        (received - fee, fee)
    } else {
        (received, 0)
    }
}

/// The forwarding step: takes what the router received since `prev_balance`
/// (its balance is now `self_balance`), and hands it on to `receiver`, with
/// the referral fee split off when the referral is active.
pub fn execute_send_from_self_with_fee(
    asset_info: AssetInfo,
    prev_balance: u128,
    self_balance: u128,
    receiver: String,
    ref_fee_pct: Option<u128>,
    ref_address: &Option<String>,
) -> (r: Result<Vec<Payment>, RouterError>)
    ensures
        match r {
            Ok(v) => forward_outcome(asset_info, prev_balance, self_balance, receiver, ref_fee_pct, *ref_address)
                == Ok::<Seq<Payment>, RouterError>(v@),
            Err(e) => forward_outcome(asset_info, prev_balance, self_balance, receiver, ref_fee_pct, *ref_address)
                == Err::<Seq<Payment>, RouterError>(e),
        },
{
    let active = match check_referral_params_valid(ref_fee_pct, ref_address) {
        Err(e) => {
            return Err(e);
        },
        Ok(b) => b,
    };
    if self_balance < prev_balance {
        return Err(RouterError::AccountingUnderflow { current: self_balance, baseline: prev_balance });
    }
    let received = self_balance - prev_balance;
    let pct = match ref_fee_pct {
        Some(p) => p,
        None => 0,
    };
    let (share, fee) = split_fee(received, pct, active);
    let mut payments: Vec<Payment> = Vec::new();
    payments.push(
        Payment { asset: Asset { info: asset_info.clone(), amount: share }, recipient: receiver.clone() },
    );
    if fee > 0 {
        payments.push(Payment { asset: Asset { info: asset_info, amount: fee }, recipient: receiver });
    }
    assert(payments@ =~= forward_payments(asset_info, received, pct, active, receiver));
    Ok(payments)
}

/// What the minimum check returns, given the receiver's balance before the
/// route and now.
pub open spec fn minimum_check(prev_balance: u128, minimum_receive: u128, receiver_balance: u128) -> Result<
    (),
    RouterError,
> {
    if receiver_balance < prev_balance {
        Err(RouterError::AccountingUnderflow { current: receiver_balance, baseline: prev_balance })
    } else if receiver_balance - prev_balance < minimum_receive {
        Err(
            RouterError::MinimumNotMet {
                minimum: minimum_receive,
                delta: (receiver_balance - prev_balance) as u128,
            },
        )
    } else {
        Ok(())
    }
}

/// Checks that the receiver got at least `minimum_receive` since its balance
/// was `prev_balance`; a delta equal to the minimum passes.
pub fn assert_minimum_receive(prev_balance: u128, minimum_receive: u128, receiver_balance: u128) -> (r:
    Result<(), RouterError>)
    ensures
        r == minimum_check(prev_balance, minimum_receive, receiver_balance),
{
    if receiver_balance < prev_balance {
        return Err(RouterError::AccountingUnderflow { current: receiver_balance, baseline: prev_balance });
    }
    let swap_amount = receiver_balance - prev_balance;
    if swap_amount < minimum_receive {
        return Err(RouterError::MinimumNotMet { minimum: minimum_receive, delta: swap_amount });
    }
    Ok(())
}

/// An outbound transfer.
#[derive(Debug, PartialEq, Eq)]
pub enum TransferMsg {
    /// A transfer on a token contract.
    Cw20Transfer { contract_addr: String, recipient: String, amount: u128 },
    /// A send of a native denomination on the ledger.
    BankSend { to_address: String, denom: String, amount: u128 },
}

/// What the transfer of `asset` to `recipient` is, where `tax` is the ledger
/// tax on the amount; the tax is deducted from native assets only.
pub open spec fn transfer_outcome(asset: Asset, recipient: String, tax: u128) -> Result<TransferMsg, RouterError> {
    match asset.info {
        AssetInfo::Token { contract_addr } => Ok(
            TransferMsg::Cw20Transfer { contract_addr, recipient, amount: asset.amount },
        ),
        AssetInfo::NativeToken { denom } => if tax > asset.amount {
            Err(RouterError::TaxExceedsAmount { amount: asset.amount, tax })
        } else {
            Ok(TransferMsg::BankSend { to_address: recipient, denom, amount: (asset.amount - tax) as u128 })
        },
    }
}

/// What is left of `asset` once the ledger tax `tax` on it is paid: a native
/// asset pays it, a token does not.
pub open spec fn after_tax(asset: Asset, tax: u128) -> Result<u128, RouterError> {
    if asset.info.is_native() {
        if tax > asset.amount {
            Err(RouterError::TaxExceedsAmount { amount: asset.amount, tax })
        } else {
            Ok((asset.amount - tax) as u128)
        }
    } else {
        Ok(asset.amount)
    }
}

pub fn amount_after_tax(asset: &Asset, tax: u128) -> (r: Result<u128, RouterError>)
    ensures
        r == after_tax(*asset, tax),
{
    if asset.info.is_native_token() {
        if tax > asset.amount {
            Err(RouterError::TaxExceedsAmount { amount: asset.amount, tax })
        } else {
            Ok(asset.amount - tax)
        }
    } else {
        Ok(asset.amount)
    }
}

/// Builds the transfer of `asset` to `recipient`.
pub fn create_transfer_msg(asset: &Asset, recipient: String, tax: u128) -> (r: Result<TransferMsg, RouterError>)
    ensures
        r == transfer_outcome(*asset, recipient, tax),
{
    match &asset.info {
        AssetInfo::Token { contract_addr } => Ok(
            TransferMsg::Cw20Transfer {
                contract_addr: contract_addr.clone(),
                recipient,
                amount: asset.amount,
            },
        ),
        AssetInfo::NativeToken { denom } => match amount_after_tax(asset, tax) {
            Err(e) => Err(e),
            Ok(amount) => Ok(TransferMsg::BankSend { to_address: recipient, denom: denom.clone(), amount }),
        },
    }
}

} // verus!
