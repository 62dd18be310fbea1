use vstd::prelude::*;
use crate::asset::AssetInfo;
use crate::error::RouterError;

verus! {

/// One step of a route: an exchange between two assets, or a bridge transfer.
/// Bridge steps are defined but not supported yet.
#[derive(Debug, PartialEq, Eq)]
pub enum SwapOperation {
    NativeSwap { offer_denom: String, ask_denom: String },
    TerraSwap { offer_asset_info: AssetInfo, ask_asset_info: AssetInfo },
    TerraBridge {
        asset_info: AssetInfo,
        bridge_contract_address: String,
        wallet_address_on_target_chain: String,
    },
    WormHoleBridge { asset_info: AssetInfo, wallet_address_on_target_chain: String },
    IbcTransfer {
        asset_info: AssetInfo,
        channel_id: String,
        port_id: String,
        wallet_address_on_target_chain: String,
        ics20_contract_address: Option<String>,
        revision_number: u128,
        revision_height: u128,
    },
}

impl SwapOperation {
    pub open spec fn is_bridge(self) -> bool {
        !(self is NativeSwap || self is TerraSwap)
    }

    /// The asset that the step consumes (exchange steps only).
    pub open spec fn offer_key(self) -> Seq<char> {
        match self {
            SwapOperation::NativeSwap { offer_denom, .. } => offer_denom@,
            SwapOperation::TerraSwap { offer_asset_info, .. } => offer_asset_info.key(),
            _ => Seq::empty(),
        }
    }

    /// The asset that the step produces (exchange steps only).
    pub open spec fn ask_key(self) -> Seq<char> {
        match self {
            SwapOperation::NativeSwap { ask_denom, .. } => ask_denom@,
            SwapOperation::TerraSwap { ask_asset_info, .. } => ask_asset_info.key(),
            _ => Seq::empty(),
        }
    }

    pub open spec fn target(self) -> AssetInfo {
        match self {
            SwapOperation::NativeSwap { ask_denom, .. } => AssetInfo::NativeToken {
                denom: ask_denom,
            },
            SwapOperation::TerraSwap { ask_asset_info, .. } => ask_asset_info,
            SwapOperation::TerraBridge { asset_info, .. } => asset_info,
            SwapOperation::WormHoleBridge { asset_info, .. } => asset_info,
            SwapOperation::IbcTransfer { asset_info, .. } => asset_info,
        }
    }

    /// The asset that the step delivers.
    pub fn get_target_asset_info(&self) -> (r: AssetInfo)
        ensures
            r == self.target(),
    {
        match self {
            SwapOperation::NativeSwap { ask_denom, .. } => AssetInfo::NativeToken {
                denom: ask_denom.clone(),
            },
            SwapOperation::TerraSwap { ask_asset_info, .. } => ask_asset_info.clone(),
            SwapOperation::TerraBridge { asset_info, .. } => asset_info.clone(),
            SwapOperation::WormHoleBridge { asset_info, .. } => asset_info.clone(),
            SwapOperation::IbcTransfer { asset_info, .. } => asset_info.clone(),
        }
    }

    pub fn is_bridge_operation(&self) -> (r: bool)
        ensures
            r == self.is_bridge(),
    {
        match self {
            SwapOperation::NativeSwap { .. } => false,
            SwapOperation::TerraSwap { .. } => false,
            _ => true,
        }
    }
}

impl Clone for SwapOperation {
    fn clone(&self) -> (r: Self)
        ensures
            r == *self,
    {
        match self {
            SwapOperation::NativeSwap { offer_denom, ask_denom } => SwapOperation::NativeSwap {
                offer_denom: offer_denom.clone(),
                ask_denom: ask_denom.clone(),
            },
            SwapOperation::TerraSwap { offer_asset_info, ask_asset_info } =>
                SwapOperation::TerraSwap {
                offer_asset_info: offer_asset_info.clone(),
                ask_asset_info: ask_asset_info.clone(),
            },
            SwapOperation::TerraBridge {
                asset_info,
                bridge_contract_address,
                wallet_address_on_target_chain,
            } => SwapOperation::TerraBridge {
                asset_info: asset_info.clone(),
                bridge_contract_address: bridge_contract_address.clone(),
                wallet_address_on_target_chain: wallet_address_on_target_chain.clone(),
            },
            SwapOperation::WormHoleBridge { asset_info, wallet_address_on_target_chain } =>
                SwapOperation::WormHoleBridge {
                asset_info: asset_info.clone(),
                wallet_address_on_target_chain: wallet_address_on_target_chain.clone(),
            },
            SwapOperation::IbcTransfer {
                asset_info,
                channel_id,
                port_id,
                wallet_address_on_target_chain,
                ics20_contract_address,
                revision_number,
                revision_height,
            } => {
                let ics20 = match ics20_contract_address {
                    Some(a) => Some(a.clone()),
                    None => None,
                };
                SwapOperation::IbcTransfer {
                    asset_info: asset_info.clone(),
                    channel_id: channel_id.clone(),
                    port_id: port_id.clone(),
                    wallet_address_on_target_chain: wallet_address_on_target_chain.clone(),
                    ics20_contract_address: ics20,
                    revision_number: *revision_number,
                    revision_height: *revision_height,
                }
            },
        }
    }
}

/// The assets left as outputs after running `ops` in order: each exchange
/// step removes the asset it consumes and adds the asset it produces.
pub open spec fn residual_outputs(ops: Seq<SwapOperation>) -> Set<Seq<char>>
    decreases ops.len(),
{
    if ops.len() == 0 {
        Set::empty()
    } else {
        let op = ops.last();
        residual_outputs(ops.drop_last()).remove(op.offer_key()).insert(op.ask_key())
    }
}

pub open spec fn has_bridge(ops: Seq<SwapOperation>) -> bool {
    exists|i: int| 0 <= i < ops.len() && (#[trigger] ops[i]).is_bridge()
}

/// What the route check returns on `ops`, empty or not.
pub open spec fn operations_check(ops: Seq<SwapOperation>) -> Result<(), RouterError> {
    if has_bridge(ops) {
        Err(RouterError::UnsupportedStepType)
    } else if residual_outputs(ops).len() != 1 {
        Err(RouterError::MultipleOutputAssets)
    } else {
        Ok(())
    }
}

/// What route validation returns: an empty route is refused first.
pub open spec fn route_check(ops: Seq<SwapOperation>) -> Result<(), RouterError> {
    if ops.len() == 0 {
        Err(RouterError::EmptyRoute)
    } else {
        operations_check(ops)
    }
}

/// The identifiers held by `v`.
pub open spec fn key_set(v: Seq<String>) -> Set<Seq<char>> {
    Set::new(|k: Seq<char>| exists|i: int| 0 <= i < v.len() && (#[trigger] v[i])@ == k)
}

pub open spec fn distinct_keys(v: Seq<String>) -> bool {
    forall|i: int, j: int| 0 <= i < v.len() && 0 <= j < v.len() && i != j ==> (#[trigger] v[i])@ != (#[trigger] v[j])@
}

proof fn lemma_key_set_push(v: Seq<String>, s: String)
    ensures
        key_set(v.push(s)) == key_set(v).insert(s@),
{
    let w = v.push(s);
    assert forall|k: Seq<char>| key_set(w).contains(k) <==> key_set(v).insert(s@).contains(k) by {
        if key_set(v).contains(k) {
            let i = choose|i: int| 0 <= i < v.len() && (#[trigger] v[i])@ == k;
            assert(w[i] == v[i]);
        }
        if key_set(w).contains(k) {
            let i = choose|i: int| 0 <= i < w.len() && (#[trigger] w[i])@ == k;
            if i < v.len() {
                assert(w[i] == v[i]);
            }
        }
        if k == s@ {
            assert(w[v.len() as int] == s);
        }
    }
    assert(key_set(w) =~= key_set(v).insert(s@));
}

proof fn lemma_key_set_len(v: Seq<String>)
    requires
        distinct_keys(v),
    ensures
        key_set(v).finite(),
        key_set(v).len() == v.len(),
    decreases v.len(),
{
    if v.len() == 0 {
        assert(key_set(v) =~= Set::empty());
    } else {
        let u = v.drop_last();
        assert(v == u.push(v.last()));
        assert(distinct_keys(u)) by {
            assert forall|i: int, j: int| 0 <= i < u.len() && 0 <= j < u.len() && i != j implies (#[trigger] u[i])@ != (#[trigger] u[j])@ by {
                assert(u[i] == v[i] && u[j] == v[j]);
            }
        }
        lemma_key_set_len(u);
        lemma_key_set_push(u, v.last());
        if key_set(u).contains(v.last()@) {
            let i = choose|i: int| 0 <= i < u.len() && (#[trigger] u[i])@ == v.last()@;
            assert(u[i] == v[i]);
            assert(v[i]@ != v[v.len() - 1]@);
        }
    }
}

/// `keys` without the identifier `k`.
fn without_key(keys: &Vec<String>, k: &String) -> (r: Vec<String>)
    requires
        distinct_keys(keys@),
    ensures
        distinct_keys(r@),
        key_set(r@) == key_set(keys@).remove(k@),
{
    let mut r: Vec<String> = Vec::new();
    let mut j: usize = 0;
    while j < keys.len()
        invariant
            j <= keys.len(),
            distinct_keys(keys@),
            distinct_keys(r@),
            key_set(r@) == key_set(keys@.subrange(0, j as int)).remove(k@),
        decreases keys.len() - j,
    {
        let ghost before = keys@.subrange(0, j as int);
        assert(keys@.subrange(0, j as int + 1) == before.push(keys@[j as int]));
        proof {
            lemma_key_set_push(before, keys@[j as int]);
        }
        if keys[j] != *k {
            let ghost old_r = r@;
            proof {
                lemma_key_set_push(old_r, keys@[j as int]);
            }
            assert forall|i: int| 0 <= i < old_r.len() implies (#[trigger] old_r[i])@ != keys@[j as int]@ by {
                assert(key_set(old_r).contains(old_r[i]@));
                assert(key_set(before).contains(old_r[i]@));
                let m = choose|m: int| 0 <= m < before.len() && (#[trigger] before[m])@ == old_r[i]@;
                assert(before[m] == keys@[m]);
            }
            r.push(keys[j].clone());
            assert(key_set(r@) =~= key_set(keys@.subrange(0, j as int + 1)).remove(k@));
        } else {
            assert(key_set(r@) =~= key_set(keys@.subrange(0, j as int + 1)).remove(k@));
        }
        j = j + 1;
    }
    assert(keys@.subrange(0, keys.len() as int) == keys@);
    r
}

/// `keys` with the identifier `k` added, unless it is already there.
fn with_key(keys: Vec<String>, k: String) -> (r: Vec<String>)
    requires
        distinct_keys(keys@),
    ensures
        distinct_keys(r@),
        key_set(r@) == key_set(keys@).insert(k@),
{
    let mut j: usize = 0;
    while j < keys.len()
        invariant
            j <= keys.len(),
            distinct_keys(keys@),
            forall|i: int| 0 <= i < j ==> (#[trigger] keys@[i])@ != k@,
        decreases keys.len() - j,
    {
        if keys[j] == k {
            assert(key_set(keys@).contains(k@));
            assert(key_set(keys@).insert(k@) =~= key_set(keys@));
            return keys;
        }
        j = j + 1;
    }
    let mut r = keys;
    proof {
        lemma_key_set_push(r@, k);
    }
    r.push(k);
    r
}

/// Checks that the exchange steps form one route that ends in exactly one
/// output asset. Bridge steps are refused.
pub fn assert_operations(operations: &Vec<SwapOperation>) -> (r: Result<(), RouterError>)
    ensures
        r == operations_check(operations@),
{
    let mut keys: Vec<String> = Vec::new();
    let mut i: usize = 0;
    while i < operations.len()
        invariant
            i <= operations.len(),
            distinct_keys(keys@),
            key_set(keys@) == residual_outputs(operations@.subrange(0, i as int)),
            forall|m: int| 0 <= m < i ==> !(#[trigger] operations@[m]).is_bridge(),
        decreases operations.len() - i,
    {
        let ghost prefix = operations@.subrange(0, i as int + 1);
        assert(prefix.drop_last() == operations@.subrange(0, i as int));
        let (offer, ask) = match &operations[i] {
            SwapOperation::NativeSwap { offer_denom, ask_denom } => (
                offer_denom.clone(),
                ask_denom.clone(),
            ),
            SwapOperation::TerraSwap { offer_asset_info, ask_asset_info } => (
                offer_asset_info.key_string(),
                ask_asset_info.key_string(),
            ),
            _ => {
                assert(operations@[i as int].is_bridge());
                return Err(RouterError::UnsupportedStepType);
            },
        };
        let kept = without_key(&keys, &offer);
        keys = with_key(kept, ask);
        i = i + 1;
    }
    assert(operations@.subrange(0, operations.len() as int) == operations@);
    proof {
        lemma_key_set_len(keys@);
    }
    if keys.len() != 1 {
        return Err(RouterError::MultipleOutputAssets);
    }
    Ok(())
}

/// Validates a route: it is not empty, holds no bridge step, and leaves
/// exactly one output asset.
pub fn validate(operations: &Vec<SwapOperation>) -> (r: Result<(), RouterError>)
    ensures
        r == route_check(operations@),
{
    if operations.len() == 0 {
        return Err(RouterError::EmptyRoute);
    }
    assert_operations(operations)
}

} // verus!

verus! {

/// Route validation accepts exactly the non-empty routes without bridge steps
/// that leave one output asset, and refuses every empty route and every route
/// that leaves two or more output assets.
pub proof fn lemma_validate_accepts_single_output(ops: Seq<SwapOperation>)
    ensures
        route_check(ops) is Ok <==> (ops.len() > 0 && !has_bridge(ops)
            && residual_outputs(ops).len() == 1),
        ops.len() == 0 ==> route_check(ops) is Err,
        residual_outputs(ops).len() >= 2 ==> route_check(ops) is Err,
{
}

} // verus!
