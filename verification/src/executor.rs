//! What the native bundle executor is handed and what it hands back, as
//! plain values: the preparation of a submission and the reading of a result.
use vstd::prelude::*;

use crate::external::{encode_address, encode_tx, tx_network_encoding, DecodedTx};

verus! {

/// Bundle transaction for MEV simulation
#[derive(Debug)]
pub struct BundleTransaction {
    pub tx: DecodedTx,
    /// Sender address (20 bytes)
    pub sender: [u8; 20],
    pub can_revert: bool,
    pub refund_percent: Option<u8>,
    /// (address, percent) pairs
    pub refund_configs: Vec<([u8; 20], u8)>,
}

/// What a bundle transaction holds: the transaction by its encoded bytes.
pub struct BundleTxView {
    pub tx: Seq<u8>,
    pub sender: Seq<u8>,
    pub can_revert: bool,
    pub refund_percent: Option<u8>,
    pub refund_configs: Seq<([u8; 20], u8)>,
}

impl View for BundleTransaction {
    type V = BundleTxView;

    open spec fn view(&self) -> BundleTxView {
        BundleTxView {
            tx: self.tx@,
            sender: self.sender@,
            can_revert: self.can_revert,
            refund_percent: self.refund_percent,
            refund_configs: self.refund_configs@,
        }
    }
}

/// Bundle inclusion constraints
#[derive(Clone, Copy, Debug, PartialEq, Eq, Structural)]
pub struct BundleInclusion {
    pub min_block_number: u64,
    pub max_block_number: Option<u64>,
}

/// Bundle execution result; 256-bit values are held as 32 big-endian bytes.
#[derive(Debug)]
pub struct BundleResult {
    pub success: bool,
    pub gas_used: u64,
    pub mev_gas_price: [u8; 32],
    pub profit: [u8; 32],
    pub refundable_value: [u8; 32],
    pub receipts: Vec<Vec<u8>>,
    pub error: Option<String>,
    pub logs: Vec<Vec<u8>>,
}

/// The chain configuration that the executor runs a bundle under.
#[derive(Clone, Copy, Debug, PartialEq, Eq, Structural)]
pub enum ChainConfig {
    MonadMainnet,
    MonadTestnet,
}

/// A transaction as the executor takes it.
#[derive(Debug)]
pub struct PreparedTransaction {
    /// The RLP (network) encoding of the transaction
    pub rlp_tx: Vec<u8>,
    /// The RLP encoding of the sender
    pub sender: Vec<u8>,
    /// 1 where the transaction may revert, else 0
    pub can_revert: u8,
    /// The refund percentage, 255 where none is given
    pub refund_percent: u8,
}

/// The inclusion range as the executor takes it: no maximum is written 0.
#[derive(Clone, Copy, Debug, PartialEq, Eq, Structural)]
pub struct PreparedInclusion {
    pub min_block_number: u64,
    pub max_block_number: u64,
}

/// A whole submission to the executor, but for the header and block id.
#[derive(Debug)]
pub struct PreparedBundle {
    pub chain_config: ChainConfig,
    pub transactions: Vec<PreparedTransaction>,
    pub inclusion: PreparedInclusion,
}

/// The refund percentage that stands for "no refund given".
pub const NO_REFUND_PERCENT: u8 = 255;

pub open spec fn chain_config_spec(chain_id: u64) -> ChainConfig {
    if chain_id == 1 {
        ChainConfig::MonadMainnet
    } else {
        ChainConfig::MonadTestnet
    }
}

/// Chain 1 runs under the mainnet configuration, every other chain under
/// the testnet one.
pub fn chain_config_for(chain_id: u64) -> (r: ChainConfig)
    ensures
        r == chain_config_spec(chain_id),
{
    if chain_id == 1 {
        ChainConfig::MonadMainnet
    } else {
        ChainConfig::MonadTestnet
    }
}

/// What the executor is handed for one transaction.
pub open spec fn prepared_tx_spec(
    t: BundleTxView,
    rlp_tx: Seq<u8>,
    sender: Seq<u8>,
    can_revert: u8,
    refund_percent: u8,
) -> bool {
    &&& rlp_tx == tx_network_encoding(t.tx)
    &&& sender == seq![0x94u8] + t.sender
    &&& can_revert == (if t.can_revert { 1u8 } else { 0u8 })
    &&& refund_percent == match t.refund_percent {
        Some(p) => p,
        None => NO_REFUND_PERCENT,
    }
}

pub open spec fn prepared_matches(p: PreparedTransaction, t: BundleTxView) -> bool {
    prepared_tx_spec(t, p.rlp_tx@, p.sender@, p.can_revert, p.refund_percent)
}

/// Converts one transaction to what the executor takes.
pub fn prepare_transaction(item: &BundleTransaction) -> (r: PreparedTransaction)
    ensures
        prepared_matches(r, item@),
        r.can_revert == 1 <==> item.can_revert,
        r.can_revert == 0 <==> !item.can_revert,
        item.refund_percent matches Some(p) ==> r.refund_percent == p,
        item.refund_percent is None ==> r.refund_percent == 255,
        r.sender@ == seq![0x94u8] + item.sender@,
        r.rlp_tx@ == tx_network_encoding(item.tx@),
{
    let rlp_tx = encode_tx(&item.tx);
    let sender = encode_address(item.sender);
    PreparedTransaction {
        rlp_tx,
        sender,
        can_revert: if item.can_revert {
            1
        } else {
            0
        },
        refund_percent: match item.refund_percent {
            Some(p) => p,
            None => NO_REFUND_PERCENT,
        },
    }
}

/// Converts the inclusion range to what the executor takes.
pub fn prepare_inclusion(inclusion: &BundleInclusion) -> (r: PreparedInclusion)
    ensures
        r.min_block_number == inclusion.min_block_number,
        r.max_block_number == match inclusion.max_block_number {
            Some(m) => m,
            None => 0,
        },
{
    PreparedInclusion {
        min_block_number: inclusion.min_block_number,
        max_block_number: match inclusion.max_block_number {
            Some(m) => m,
            None => 0,
        },
    }
}

/// Converts a bundle to what the executor takes, in the same order.
pub fn prepare_bundle(
    chain_id: u64,
    bundle: &Vec<BundleTransaction>,
    inclusion: &BundleInclusion,
) -> (r: PreparedBundle)
    ensures
        r.chain_config == chain_config_spec(chain_id),
        r.transactions@.len() == bundle@.len(),
        forall|i: int|
            0 <= i < bundle@.len() ==> prepared_matches(
                #[trigger] r.transactions@[i],
                bundle@[i]@,
            ),
        r.inclusion.min_block_number == inclusion.min_block_number,
        r.inclusion.max_block_number == match inclusion.max_block_number {
            Some(m) => m,
            None => 0,
        },
{
    let mut transactions: Vec<PreparedTransaction> = Vec::new();
    let mut i: usize = 0;
    while i < bundle.len()
        invariant
            i <= bundle@.len(),
            transactions@.len() == i,
            forall|j: int|
                0 <= j < i ==> prepared_matches(#[trigger] transactions@[j], bundle@[j]@),
        decreases bundle@.len() - i,
    {
        transactions.push(prepare_transaction(&bundle[i]));
        i = i + 1;
    }
    PreparedBundle {
        chain_config: chain_config_for(chain_id),
        transactions,
        inclusion: prepare_inclusion(inclusion),
    }
}

/// A result as the executor reports it, read into plain values: a receipts
/// buffer or an error message that the executor left out is `None`.
#[derive(Debug)]
pub struct RawBundleResult {
    /// The executor's success flag, widened to 64 bits
    pub success: u64,
    pub gas_used: u64,
    pub mev_gas_price: [u8; 32],
    pub profit: [u8; 32],
    pub refundable_value: [u8; 32],
    pub receipts_data: Option<Vec<u8>>,
    pub error_message: Option<String>,
}

pub open spec fn zero_word() -> Seq<u8> {
    Seq::new(32, |_i: int| 0u8)
}

fn zero_bytes32() -> (r: [u8; 32])
    ensures
        r@ == zero_word(),
{
    let r = [0u8; 32];
    assert(r@ =~= zero_word());
    r
}

/// The result of an execution that reported nothing.
pub fn null_bundle_result() -> (r: BundleResult)
    ensures
        !r.success,
        r.gas_used == 0,
        r.mev_gas_price@ == zero_word(),
        r.profit@ == zero_word(),
        r.refundable_value@ == zero_word(),
        r.receipts@.len() == 0,
        r.logs@.len() == 0,
        r.error matches Some(m) && m@ == "Null result from executor"@,
{
    BundleResult {
        success: false,
        gas_used: 0,
        mev_gas_price: zero_bytes32(),
        profit: zero_bytes32(),
        refundable_value: zero_bytes32(),
        receipts: Vec::new(),
        error: Some("Null result from executor".to_owned()),
        logs: Vec::new(),
    }
}

/// Converts what the executor reported: success is any nonzero flag, the
/// receipts buffer (where given) becomes the one receipt entry.
pub fn bundle_result_from_raw(raw: RawBundleResult) -> (r: BundleResult)
    ensures
        r.success == (raw.success != 0),
        r.gas_used == raw.gas_used,
        r.mev_gas_price == raw.mev_gas_price,
        r.profit == raw.profit,
        r.refundable_value == raw.refundable_value,
        match raw.receipts_data {
            None => r.receipts@.len() == 0,
            Some(d) => r.receipts@.len() == 1 && r.receipts@[0]@ == d@,
        },
        r.error == raw.error_message,
        r.logs@.len() == 0,
{
    let receipts = match raw.receipts_data {
        None => Vec::new(),
        Some(d) => {
            let mut v: Vec<Vec<u8>> = Vec::new();
            v.push(d);
            v
        },
    };
    BundleResult {
        success: raw.success != 0,
        gas_used: raw.gas_used,
        mev_gas_price: raw.mev_gas_price,
        profit: raw.profit,
        refundable_value: raw.refundable_value,
        receipts,
        error: raw.error_message,
        logs: Vec::new(),
    }
}

} // verus!
