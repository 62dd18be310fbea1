use vstd::prelude::*;
use crate::asset::AssetInfo;
use crate::error::RouterError;
use crate::route::SwapOperation;

verus! {

/// The three points of a step at which the simulation may need an outside
/// answer: the tax on what is offered, the venue's quote, the tax on what is
/// returned.
#[derive(Debug, PartialEq, Eq, Clone, Copy)]
pub enum SimStage {
    OfferTax,
    Quote,
    AskTax,
}

/// An outside answer that the simulation needs next.
#[derive(Debug, PartialEq, Eq)]
pub enum SimQuery {
    /// The ledger tax on `amount` of `denom`.
    Tax { denom: String, amount: u128 },
    /// The ledger's own quote for `amount` of `offer_denom` in `ask_denom`.
    NativeSwap { offer_denom: String, ask_denom: String, amount: u128 },
    /// The quote of the venue that exchanges the two assets, for `amount`.
    PairSwap { offer_asset_info: AssetInfo, ask_asset_info: AssetInfo, amount: u128 },
}

/// A route simulation in progress: the step and the point within it that
/// waits for an answer, and the running amount.
#[derive(Debug, PartialEq, Eq)]
pub struct Simulation {
    pub index: usize,
    pub stage: SimStage,
    pub amount: u128,
}

/// The denomination whose tax is deducted from the offer of step `i`: a
/// ledger exchange pays it only when it is the last step, a venue exchange
/// whenever it offers a native asset.
pub open spec fn offer_tax_denom(ops: Seq<SwapOperation>, i: int) -> Option<Seq<char>> {
    match ops[i] {
        SwapOperation::NativeSwap { offer_denom, .. } => if i == ops.len() - 1 {
            Some(offer_denom@)
        } else {
            None
        },
        SwapOperation::TerraSwap { offer_asset_info, .. } => match offer_asset_info {
            AssetInfo::NativeToken { denom } => Some(denom@),
            _ => None,
        },
        _ => None,
    }
}

/// The denomination whose tax is deducted from what a step returns: only a
/// venue exchange that returns a native asset pays it.
pub open spec fn ask_tax_denom(op: SwapOperation) -> Option<Seq<char>> {
    match op {
        SwapOperation::TerraSwap { ask_asset_info, .. } => match ask_asset_info {
            AssetInfo::NativeToken { denom } => Some(denom@),
            _ => None,
        },
        _ => None,
    }
}

/// Whether step `i` asks an outside question at `stage`. Bridge steps ask
/// nothing: they leave the amount as it is.
pub open spec fn asks(ops: Seq<SwapOperation>, i: int, stage: SimStage) -> bool {
    match stage {
        SimStage::OfferTax => offer_tax_denom(ops, i) is Some,
        SimStage::Quote => !ops[i].is_bridge(),
        SimStage::AskTax => ask_tax_denom(ops[i]) is Some,
    }
}

pub open spec fn rank(i: int, stage: SimStage) -> int {
    3 * i + match stage {
        SimStage::OfferTax => 0int,
        SimStage::Quote => 1int,
        SimStage::AskTax => 2int,
    }
}

/// No point strictly between `(i, s)` and `(j, t)` asks anything.
pub open spec fn silent_between(ops: Seq<SwapOperation>, i: int, s: SimStage, j: int, t: SimStage) -> bool {
    forall|k: int, u: SimStage|
        0 <= k < ops.len() && rank(i, s) < #[trigger] rank(k, u) < rank(j, t) ==> !asks(ops, k, u)
}

/// The answer to a query at `stage` turns `amount` into the new running
/// amount: a tax is deducted, a quote replaces it.
pub open spec fn apply_answer(stage: SimStage, amount: u128, answer: u128) -> Result<u128, RouterError> {
    match stage {
        SimStage::Quote => Ok(answer),
        _ => if answer > amount {
            Err(RouterError::TaxExceedsAmount { amount, tax: answer })
        } else {
            Ok((amount - answer) as u128)
        },
    }
}

/// The query that step `i` asks at `stage` with the running `amount`.
pub open spec fn query_of(q: SimQuery, ops: Seq<SwapOperation>, i: int, stage: SimStage, amount: u128) -> bool {
    match stage {
        SimStage::OfferTax => q is Tax && q->Tax_denom@ == offer_tax_denom(ops, i)->0
            && q->Tax_amount == amount,
        SimStage::AskTax => q is Tax && q->Tax_denom@ == ask_tax_denom(ops[i])->0 && q->Tax_amount
            == amount,
        SimStage::Quote => match ops[i] {
            SwapOperation::NativeSwap { offer_denom, ask_denom } => q is NativeSwap
                && q->NativeSwap_offer_denom == offer_denom && q->NativeSwap_ask_denom == ask_denom
                && q->NativeSwap_amount == amount,
            SwapOperation::TerraSwap { offer_asset_info, ask_asset_info } => q is PairSwap
                && q->PairSwap_offer_asset_info == offer_asset_info
                && q->PairSwap_ask_asset_info == ask_asset_info && q->PairSwap_amount == amount,
            _ => false,
        },
    }
}

fn next_stage(i: usize, stage: SimStage) -> (r: (usize, SimStage))
    requires
        i < usize::MAX,
    ensures
        rank(r.0 as int, r.1) == rank(i as int, stage) + 1,
{
    match stage {
        SimStage::OfferTax => (i, SimStage::Quote),
        SimStage::Quote => (i, SimStage::AskTax),
        SimStage::AskTax => (i + 1, SimStage::OfferTax),
    }
}

fn stage_asks(ops: &Vec<SwapOperation>, i: usize, stage: SimStage) -> (r: bool)
    requires
        i < ops.len(),
    ensures
        r == asks(ops@, i as int, stage),
{
    match stage {
        SimStage::OfferTax => match &ops[i] {
            SwapOperation::NativeSwap { .. } => i == ops.len() - 1,
            SwapOperation::TerraSwap { offer_asset_info, .. } => offer_asset_info.is_native_token(),
            _ => false,
        },
        SimStage::Quote => !ops[i].is_bridge_operation(),
        SimStage::AskTax => match &ops[i] {
            SwapOperation::TerraSwap { ask_asset_info, .. } => ask_asset_info.is_native_token(),
            _ => false,
        },
    }
}

impl Simulation {
    /// The simulation stands at a point that asks, or past the last step.
    pub open spec fn wf(self, ops: Seq<SwapOperation>) -> bool {
        &&& self.index <= ops.len()
        &&& self.index == ops.len() ==> self.stage == SimStage::OfferTax
        &&& self.index < ops.len() ==> asks(ops, self.index as int, self.stage)
    }

    pub open spec fn done(self, ops: Seq<SwapOperation>) -> bool {
        self.index >= ops.len()
    }

    /// Moves from `(i, stage)` to the first point at or after it that asks,
    /// or past the last step.
    fn seek(ops: &Vec<SwapOperation>, i: usize, stage: SimStage, amount: u128) -> (r: Simulation)
        requires
            i < ops.len() || (i == ops.len() && stage == SimStage::OfferTax),
        ensures
            r.wf(ops@),
            r.amount == amount,
            rank(i as int, stage) <= rank(r.index as int, r.stage),
            silent_between(ops@, i as int, stage, r.index as int, r.stage),
            i < ops.len() && asks(ops@, i as int, stage) ==> r.index == i && r.stage == stage,
    {
        let mut j = i;
        let mut s = stage;
        while j < ops.len() && !stage_asks(ops, j, s)
            invariant
                j <= ops.len(),
                j == ops.len() ==> s == SimStage::OfferTax,
                rank(i as int, stage) <= rank(j as int, s),
                forall|k: int, u: SimStage|
                    0 <= k < ops.len() && rank(i as int, stage) <= #[trigger] rank(k, u) < rank(
                        j as int,
                        s,
                    ) ==> !asks(ops@, k, u),
            decreases 3 * (ops.len() - j) - match s {
                SimStage::OfferTax => 0int,
                SimStage::Quote => 1int,
                SimStage::AskTax => 2int,
            },
        {
            let ghost (oj, os) = (j as int, s);
            let (nj, ns) = next_stage(j, s);
            assert forall|k: int, u: SimStage|
                0 <= k < ops.len() && rank(i as int, stage) <= #[trigger] rank(k, u) < rank(
                    nj as int,
                    ns,
                ) implies !asks(ops@, k, u) by {
                if rank(k, u) == rank(oj, os) {
                    assert(k == oj && u == os) by {
                        assert(rank(k, u) == rank(oj, os));
                    }
                }
            }
            j = nj;
            s = ns;
        }
        Simulation { index: j, stage: s, amount }
    }

    /// Starts the simulation of `offer_amount` through `operations`.
    pub fn start(offer_amount: u128, operations: &Vec<SwapOperation>) -> (r: Result<Simulation, RouterError>)
        ensures
            operations@.len() == 0 <==> r is Err,
            r is Err ==> r == Err::<Simulation, RouterError>(RouterError::EmptyRoute),
            r is Ok ==> r->Ok_0.wf(operations@) && r->Ok_0.amount == offer_amount && silent_between(
                operations@,
                0,
                SimStage::OfferTax,
                r->Ok_0.index as int,
                r->Ok_0.stage,
            ) && (asks(operations@, 0, SimStage::OfferTax) ==> r->Ok_0.index == 0 && r->Ok_0.stage == SimStage::OfferTax),
    {
        if operations.len() == 0 {
            return Err(RouterError::EmptyRoute);
        }
        Ok(Simulation::seek(operations, 0, SimStage::OfferTax, offer_amount))
    }

    /// The question that the simulation waits for; none once it is done, and
    /// then `amount` is the simulated output.
    pub fn next_query(&self, operations: &Vec<SwapOperation>) -> (r: Option<SimQuery>)
        requires
            self.wf(operations@),
        ensures
            r is None <==> self.done(operations@),
            r is Some ==> query_of(r->0, operations@, self.index as int, self.stage, self.amount),
    {
        if self.index >= operations.len() {
            return None;
        }
        let op = &operations[self.index];
        match self.stage {
            SimStage::OfferTax => match op {
                SwapOperation::NativeSwap { offer_denom, .. } => Some(
                    SimQuery::Tax { denom: offer_denom.clone(), amount: self.amount },
                ),
                SwapOperation::TerraSwap { offer_asset_info, .. } => Some(
                    SimQuery::Tax { denom: offer_asset_info.key_string(), amount: self.amount },
                ),
                _ => None,
            },
            SimStage::Quote => match op {
                SwapOperation::NativeSwap { offer_denom, ask_denom } => Some(
                    SimQuery::NativeSwap {
                        offer_denom: offer_denom.clone(),
                        ask_denom: ask_denom.clone(),
                        amount: self.amount,
                    },
                ),
                SwapOperation::TerraSwap { offer_asset_info, ask_asset_info } => Some(
                    SimQuery::PairSwap {
                        offer_asset_info: offer_asset_info.clone(),
                        ask_asset_info: ask_asset_info.clone(),
                        amount: self.amount,
                    },
                ),
                _ => None,
            },
            SimStage::AskTax => match op {
                SwapOperation::TerraSwap { ask_asset_info, .. } => Some(
                    SimQuery::Tax { denom: ask_asset_info.key_string(), amount: self.amount },
                ),
                _ => None,
            },
        }
    }

    /// Takes the answer to the pending question and moves to the next point
    /// that asks one.
    pub fn advance(&self, operations: &Vec<SwapOperation>, answer: u128) -> (r: Result<Simulation, RouterError>)
        requires
            self.wf(operations@),
            !self.done(operations@),
        ensures
            match apply_answer(self.stage, self.amount, answer) {
                Err(e) => r == Err::<Simulation, RouterError>(e),
                Ok(a) => r is Ok && r->Ok_0.wf(operations@) && r->Ok_0.amount == a
                    && rank(self.index as int, self.stage) < rank(r->Ok_0.index as int, r->Ok_0.stage)
                    && silent_between(operations@, self.index as int, self.stage, r->Ok_0.index as int, r->Ok_0.stage),
            },
    {
        let amount = match self.stage {
            SimStage::Quote => answer,
            _ => {
                if answer > self.amount {
                    return Err(RouterError::TaxExceedsAmount { amount: self.amount, tax: answer });
                }
                self.amount - answer
            },
        };
        assert(self.index < operations.len());
        let (i, s) = next_stage(self.index, self.stage);
        let r = Simulation::seek(operations, i, s, amount);
        assert(silent_between(operations@, self.index as int, self.stage, r.index as int, r.stage)) by {
            assert forall|k: int, u: SimStage|
                0 <= k < operations@.len() && rank(self.index as int, self.stage) < #[trigger] rank(k, u) < rank(r.index as int, r.stage)
                implies !asks(operations@, k, u) by {
                if rank(k, u) < rank(i as int, s) {
                    assert(false);
                } else if rank(k, u) == rank(i as int, s) {
                    assert(k == i && u == s);
                }
            }
        }
        Ok(r)
    }
}

/// The two venue steps native `offer` to token `token`, then `token` to
/// native `ask`.
pub open spec fn native_token_native(offer: String, token: String, ask: String) -> Seq<SwapOperation> {
    seq![
        SwapOperation::TerraSwap {
            offer_asset_info: AssetInfo::NativeToken { denom: offer },
            ask_asset_info: AssetInfo::Token { contract_addr: token },
        },
        SwapOperation::TerraSwap {
            offer_asset_info: AssetInfo::Token { contract_addr: token },
            ask_asset_info: AssetInfo::NativeToken { denom: ask },
        },
    ]
}

/// Simulating native to token to native takes the ledger tax exactly twice:
/// on the initial native offer before the first quote, and on the native
/// result after the second quote. The token leg is never taxed, and both
/// venues are quoted.
pub proof fn lemma_native_token_native_taxed_at_ends(offer: String, token: String, ask: String)
    ensures
        offer_tax_denom(native_token_native(offer, token, ask), 0) == Some(offer@),
        asks(native_token_native(offer, token, ask), 0, SimStage::Quote),
        !asks(native_token_native(offer, token, ask), 0, SimStage::AskTax),
        !asks(native_token_native(offer, token, ask), 1, SimStage::OfferTax),
        asks(native_token_native(offer, token, ask), 1, SimStage::Quote),
        ask_tax_denom(native_token_native(offer, token, ask)[1]) == Some(ask@),
{
    let ops = native_token_native(offer, token, ask);
    assert(ops[0] == SwapOperation::TerraSwap {
        offer_asset_info: AssetInfo::NativeToken { denom: offer },
        ask_asset_info: AssetInfo::Token { contract_addr: token },
    });
    assert(ops[1] == SwapOperation::TerraSwap {
        offer_asset_info: AssetInfo::Token { contract_addr: token },
        ask_asset_info: AssetInfo::NativeToken { denom: ask },
    });
}

} // verus!
