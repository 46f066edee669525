//! The decisions of a bundle simulation: its timeout, the bundle handed to
//! the executor, the header it runs on and the response it gives.
use vstd::prelude::*;

use crate::executor::{BundleInclusion, BundleResult, BundleTransaction, BundleTxView};
use crate::external::{be_value, u256_be_to_u64};
use crate::parser::{
    flat_views, flatten_bundle, flatten_spec, BundleParseError, FlatItemView,
    FlattenedBundleItem,
};
use crate::types::{
    BlockOverrides, Inclusion, RefundConfig, SendBundleRequest, DEFAULT_SIM_TIMEOUT_SECS,
    MAX_SIM_TIMEOUT_SECS,
};

verus! {

pub open spec fn sim_timeout_spec(timeout: Option<u64>) -> u64 {
    match timeout {
        Some(t) => if t <= MAX_SIM_TIMEOUT_SECS {
            t
        } else {
            DEFAULT_SIM_TIMEOUT_SECS
        },
        None => DEFAULT_SIM_TIMEOUT_SECS,
    }
}

/// The simulation timeout in seconds: the one asked for where it is at most
/// the maximum, else the default.
pub fn sim_timeout_secs(timeout: Option<u64>) -> (r: u64)
    ensures
        r == sim_timeout_spec(timeout),
        r <= MAX_SIM_TIMEOUT_SECS,
        timeout matches Some(t) ==> (t <= MAX_SIM_TIMEOUT_SECS ==> r == t),
        timeout matches Some(t) ==> (t > MAX_SIM_TIMEOUT_SECS ==> r == DEFAULT_SIM_TIMEOUT_SECS),
        timeout is None ==> r == DEFAULT_SIM_TIMEOUT_SECS,
{
    match timeout {
        Some(t) => if t <= MAX_SIM_TIMEOUT_SECS {
            t
        } else {
            DEFAULT_SIM_TIMEOUT_SECS
        },
        None => DEFAULT_SIM_TIMEOUT_SECS,
    }
}

/// The inclusion range handed to the executor.
pub fn bundle_inclusion(inclusion: &Inclusion) -> (r: BundleInclusion)
    ensures
        r.min_block_number == inclusion.block_number,
        r.max_block_number == inclusion.max_block_number,
{
    BundleInclusion {
        min_block_number: inclusion.block_number(),
        max_block_number: inclusion.max_block_number(),
    }
}

pub open spec fn config_pair(c: RefundConfig) -> ([u8; 20], u8) {
    (c.address, c.percent as u8)
}

/// The executor's form of a flattened item: percentages narrowed to a byte,
/// no refund configurations where none were given.
pub open spec fn bundle_tx_of(f: FlatItemView) -> BundleTxView {
    BundleTxView {
        tx: f.tx,
        sender: f.sender,
        can_revert: f.can_revert,
        refund_percent: match f.refund_percent {
            Some(p) => Some(p as u8),
            None => None,
        },
        refund_configs: match f.refund_configs {
            Some(c) => c.map_values(|c: RefundConfig| config_pair(c)),
            None => Seq::empty(),
        },
    }
}

fn config_pairs(configs: &Option<Vec<RefundConfig>>) -> (r: Vec<([u8; 20], u8)>)
    ensures
        r@ == match *configs {
            Some(c) => c@.map_values(|c: RefundConfig| config_pair(c)),
            None => Seq::empty(),
        },
{
    let mut r: Vec<([u8; 20], u8)> = Vec::new();
    match configs {
        None => {
            assert(r@ =~= Seq::<([u8; 20], u8)>::empty());
        },
        Some(c) => {
            let mut i: usize = 0;
            while i < c.len()
                invariant
                    i <= c@.len(),
                    r@ =~= c@.take(i as int).map_values(|c: RefundConfig| config_pair(c)),
                decreases c@.len() - i,
            {
                let config = c[i];
                r.push((config.address, config.percent as u8));
                i = i + 1;
                assert(r@ =~= c@.take(i as int).map_values(|c: RefundConfig| config_pair(c)));
            }
            assert(c@.take(c@.len() as int) =~= c@);
        },
    }
    r
}

/// Converts a flattened item to the executor's form.
pub fn to_bundle_transaction(item: FlattenedBundleItem) -> (r: BundleTransaction)
    ensures
        r@ == bundle_tx_of(item@),
        r.can_revert == item.can_revert,
        r.tx@ == item.tx@,
        r.sender == item.sender,
        item.refund_percent matches Some(p) ==> r.refund_percent == Some(p as u8),
        item.refund_percent is None ==> r.refund_percent is None,
{
    let refund_configs = config_pairs(&item.refund_configs);
    let refund_percent = match item.refund_percent {
        Some(p) => Some(p as u8),
        None => None,
    };
    BundleTransaction {
        tx: item.tx,
        sender: item.sender,
        can_revert: item.can_revert,
        refund_percent,
        refund_configs,
    }
}

pub open spec fn bundle_tx_views(s: Seq<BundleTransaction>) -> Seq<BundleTxView> {
    s.map_values(|t: BundleTransaction| t@)
}

/// Converts flattened items to the executor's form, in the same order.
pub fn to_bundle_transactions(items: Vec<FlattenedBundleItem>) -> (r: Vec<BundleTransaction>)
    ensures
        bundle_tx_views(r@) == flat_views(items@).map_values(|f: FlatItemView| bundle_tx_of(f)),
{
    let ghost views = flat_views(items@);
    let mut items = items;
    let mut r: Vec<BundleTransaction> = Vec::new();
    let ghost n = views.len();
    while items.len() > 0
        invariant
            items@.len() + r@.len() == n,
            n == views.len(),
            forall|j: int| 0 <= j < items@.len() ==> (#[trigger] items@[j])@ == views[r@.len() + j],
            forall|j: int|
                0 <= j < r@.len() ==> (#[trigger] r@[j])@ == bundle_tx_of(views[j]),
        decreases items@.len(),
    {
        let ghost k = r@.len() as int;
        let ghost before = items@;
        let item = items.remove(0);
        assert(item@ == views[k]);
        assert forall|j: int| 0 <= j < items@.len() implies (#[trigger] items@[j])@ == views[k + 1 + j] by {
            assert(items@[j] == before[j + 1]);
        }
        r.push(to_bundle_transaction(item));
    }
    assert(bundle_tx_views(r@) =~= views.map_values(|f: FlatItemView| bundle_tx_of(f)));
    r
}

/// What the executor is handed for a bundle.
#[derive(Debug)]
pub struct SimulationRequest {
    pub transactions: Vec<BundleTransaction>,
    pub inclusion: BundleInclusion,
}

/// Flattens the bundle of a simulation and converts it to the executor's
/// form; fails exactly as `flatten_bundle` does.
pub fn prepare_simulation(bundle: &SendBundleRequest) -> (res: Result<
    SimulationRequest,
    BundleParseError,
>)
    ensures
        match flatten_spec(*bundle, 1) {
            Ok(s) => res matches Ok(r) && bundle_tx_views(r.transactions@) == s.map_values(
                |f: FlatItemView| bundle_tx_of(f),
            ) && r.inclusion.min_block_number == bundle.inclusion.block_number
                && r.inclusion.max_block_number == bundle.inclusion.max_block_number,
            Err(k) => res matches Err(e) && e@ == k,
        },
{
    let items = match flatten_bundle(bundle) {
        Ok(items) => items,
        Err(e) => return Err(e),
    };
    let transactions = to_bundle_transactions(items);
    Ok(SimulationRequest { transactions, inclusion: bundle_inclusion(&bundle.inclusion) })
}

/// The header fields that a simulation reads or overrides.
#[derive(Clone, Copy, Debug)]
pub struct HeaderFields {
    pub number: u64,
    pub timestamp: u64,
    pub gas_limit: u64,
    pub beneficiary: [u8; 20],
    pub base_fee_per_gas: Option<u64>,
}

/// A base fee override is usable where its value fits in 64 bits.
pub open spec fn overrides_fit(overrides: BlockOverrides) -> bool {
    overrides.base_fee_per_gas matches Some(b) ==> be_value(b@) <= u64::MAX
}

/// Applies the overrides that are given: block number, timestamp, gas limit,
/// beneficiary and base fee.
pub fn apply_block_overrides(header: &mut HeaderFields, overrides: &BlockOverrides)
    requires
        overrides_fit(*overrides),
    ensures
        final(header).number == match overrides.number {
            Some(n) => n,
            None => old(header).number,
        },
        final(header).timestamp == match overrides.timestamp {
            Some(t) => t,
            None => old(header).timestamp,
        },
        final(header).gas_limit == match overrides.gas_limit {
            Some(g) => g,
            None => old(header).gas_limit,
        },
        final(header).beneficiary == match overrides.beneficiary {
            Some(b) => b,
            None => old(header).beneficiary,
        },
        final(header).base_fee_per_gas == match overrides.base_fee_per_gas {
            Some(b) => Some(be_value(b@) as u64),
            None => old(header).base_fee_per_gas,
        },
{
    if let Some(number) = overrides.number {
        header.number = number;
    }
    if let Some(timestamp) = overrides.timestamp {
        header.timestamp = timestamp;
    }
    if let Some(gas_limit) = overrides.gas_limit {
        header.gas_limit = gas_limit;
    }
    if let Some(beneficiary) = overrides.beneficiary {
        header.beneficiary = beneficiary;
    }
    if let Some(base_fee) = overrides.base_fee_per_gas {
        header.base_fee_per_gas = Some(u256_be_to_u64(base_fee));
    }
}

/// The block id handed to the executor: the id of a proposed block, zeros
/// for a finalized one.
pub fn simulation_block_id(proposed_block_id: Option<[u8; 32]>) -> (r: [u8; 32])
    ensures
        r@ == match proposed_block_id {
            Some(id) => id@,
            None => Seq::new(32, |_i: int| 0u8),
        },
{
    match proposed_block_id {
        Some(id) => id,
        None => {
            let r = [0u8; 32];
            assert(r@ =~= Seq::new(32, |_i: int| 0u8));
            r
        },
    }
}

/// Logs from bundle simulation
#[derive(Debug)]
pub struct SimBundleLogs {
    /// Logs from individual transaction
    pub tx_logs: Option<Vec<alloy_rpc_types_eth::Log>>,
    /// Logs from nested bundle
    pub bundle_logs: Option<Vec<SimBundleLogs>>,
}

/// Bundle simulation response; 256-bit values are held as 32 big-endian
/// bytes.
#[derive(Debug)]
pub struct SimBundleResponse {
    /// Whether simulation was successful
    pub success: bool,
    /// Block number simulated against
    pub state_block: u64,
    /// Total gas used by bundle
    pub gas_used: u64,
    /// MEV gas price (profit / gas_used)
    pub mev_gas_price: [u8; 32],
    /// Total profit from bundle
    pub profit: [u8; 32],
    /// Remaining refundable value
    pub refundable_value: [u8; 32],
    /// Transaction and bundle logs
    pub logs: Option<Vec<SimBundleLogs>>,
    /// Error message if simulation failed
    pub error: Option<String>,
    /// Execution error details
    pub exec_error: Option<String>,
    /// Revert data if transaction reverted
    pub revert: Option<Vec<u8>>,
}

/// The response for an execution result on the block numbered `state_block`.
pub fn sim_bundle_response(result: BundleResult, state_block: u64) -> (r: SimBundleResponse)
    ensures
        r.success == result.success,
        r.state_block == state_block,
        r.gas_used == result.gas_used,
        r.mev_gas_price == result.mev_gas_price,
        r.profit == result.profit,
        r.refundable_value == result.refundable_value,
        r.logs is None,
        r.error == result.error,
        r.exec_error is None,
        r.revert is None,
{
    SimBundleResponse {
        success: result.success,
        state_block,
        gas_used: result.gas_used,
        mev_gas_price: result.mev_gas_price,
        profit: result.profit,
        refundable_value: result.refundable_value,
        logs: None,
        error: result.error,
        exec_error: None,
        revert: None,
    }
}

} // verus!
