//! The request and override types of a bundle simulation, with their
//! mathematical views.
use vstd::prelude::*;

verus! {

/// Maximum depth for nested bundles
pub const MAX_NESTED_BUNDLE_DEPTH: usize = 5;

/// Maximum number of items in a bundle
pub const MAX_BUNDLE_BODY_SIZE: usize = 50;

/// Default simulation timeout in seconds
pub const DEFAULT_SIM_TIMEOUT_SECS: u64 = 5;

/// Maximum simulation timeout in seconds
pub const MAX_SIM_TIMEOUT_SECS: u64 = 30;

/// Maximum payout cost for refunds
pub const SBUNDLE_PAYOUT_MAX_COST: u64 = 30_000;

/// Bundle submission request
#[derive(Debug)]
pub struct SendBundleRequest {
    /// List of transactions and nested bundles
    pub bundle_body: Vec<BundleItem>,
    /// Block inclusion constraints
    pub inclusion: Inclusion,
    /// Optional validity constraints
    pub validity: Option<Validity>,
    /// Optional privacy settings
    pub privacy: Option<Privacy>,
}

/// Individual item in a bundle
#[derive(Debug)]
pub enum BundleItem {
    /// Raw transaction (its encoded bytes) with revert policy
    Tx {
        /// Encoded transaction
        tx: Vec<u8>,
        /// Whether transaction is allowed to revert
        can_revert: bool,
    },
    /// Nested bundle
    Bundle {
        /// Nested bundle request
        bundle: Box<SendBundleRequest>,
    },
    /// Transaction hash reference (not supported in simulation)
    Hash {
        /// Transaction hash
        hash: [u8; 32],
    },
}

/// Block inclusion constraints
#[derive(Clone, Copy, Debug, PartialEq, Eq, Structural)]
pub struct Inclusion {
    /// Minimum block number for inclusion
    pub block_number: u64,
    /// Maximum block number for inclusion
    pub max_block_number: Option<u64>,
}

impl Inclusion {
    pub fn block_number(&self) -> (r: u64)
        ensures
            r == self.block_number,
    {
        self.block_number
    }

    pub fn max_block_number(&self) -> (r: Option<u64>)
        ensures
            r == self.max_block_number,
    {
        self.max_block_number
    }
}

/// Refund entry for a specific transaction
#[derive(Clone, Copy, Debug, PartialEq, Eq, Structural)]
pub struct RefundEntry {
    /// Index in bundle body
    pub body_idx: u32,
    /// Refund percentage (0-100)
    pub percent: u64,
}

/// Refund configuration
#[derive(Clone, Copy, Debug)]
pub struct RefundConfig {
    /// Address (20 bytes) to receive refund
    pub address: [u8; 20],
    /// Percentage of refund (0-100)
    pub percent: u64,
}

/// Bundle validity constraints
#[derive(Debug)]
pub struct Validity {
    /// Refund percentages for specific transactions
    pub refund: Option<Vec<RefundEntry>>,
    /// Refund configurations
    pub refund_config: Option<Vec<RefundConfig>>,
}

/// What a `Validity` holds, as sequences.
pub struct ValidityView {
    pub refund: Option<Seq<RefundEntry>>,
    pub refund_config: Option<Seq<RefundConfig>>,
}

pub open spec fn opt_vec_view<T>(v: Option<Vec<T>>) -> Option<Seq<T>> {
    match v {
        Some(v) => Some(v@),
        None => None,
    }
}

impl View for Validity {
    type V = ValidityView;

    open spec fn view(&self) -> ValidityView {
        ValidityView { refund: opt_vec_view(self.refund), refund_config: opt_vec_view(self.refund_config) }
    }
}

/// Privacy settings
#[derive(Debug)]
pub struct Privacy {
    /// Hints for block builders
    pub hints: Option<Vec<String>>,
    /// List of builders to send to
    pub builders: Option<Vec<String>>,
}

/// What a `Privacy` holds, each string by its characters.
pub struct PrivacyView {
    pub hints: Option<Seq<Seq<char>>>,
    pub builders: Option<Seq<Seq<char>>>,
}

pub open spec fn opt_strings_view(v: Option<Vec<String>>) -> Option<Seq<Seq<char>>> {
    match v {
        Some(v) => Some(v@.map_values(|s: String| s@)),
        None => None,
    }
}

impl View for Privacy {
    type V = PrivacyView;

    open spec fn view(&self) -> PrivacyView {
        PrivacyView { hints: opt_strings_view(self.hints), builders: opt_strings_view(self.builders) }
    }
}

pub open spec fn opt_view<T: View>(v: Option<T>) -> Option<T::V> {
    match v {
        Some(t) => Some(t@),
        None => None,
    }
}

/// Copies a list of plain-valued items.
pub fn copy_vec<T: Copy>(v: &Vec<T>) -> (r: Vec<T>)
    ensures
        r@ == v@,
{
    let mut r: Vec<T> = Vec::new();
    let mut i: usize = 0;
    while i < v.len()
        invariant
            i <= v.len(),
            r@ == v@.take(i as int),
        decreases v.len() - i,
    {
        r.push(v[i]);
        i = i + 1;
        assert(r@ =~= v@.take(i as int));
    }
    assert(v@.take(v.len() as int) =~= v@);
    r
}

pub fn copy_opt_vec<T: Copy>(v: &Option<Vec<T>>) -> (r: Option<Vec<T>>)
    ensures
        opt_vec_view(r) == opt_vec_view(*v),
{
    match v {
        Some(v) => Some(copy_vec(v)),
        None => None,
    }
}

fn copy_strings(v: &Vec<String>) -> (r: Vec<String>)
    ensures
        r@.map_values(|s: String| s@) == v@.map_values(|s: String| s@),
{
    let mut r: Vec<String> = Vec::new();
    let mut i: usize = 0;
    while i < v.len()
        invariant
            i <= v.len(),
            r@.len() == i,
            forall|j: int| 0 <= j < i ==> #[trigger] r@[j]@ == v@[j]@,
        decreases v.len() - i,
    {
        r.push(v[i].clone());
        i = i + 1;
    }
    assert(r@.map_values(|s: String| s@) =~= v@.map_values(|s: String| s@));
    r
}

fn copy_opt_strings(v: &Option<Vec<String>>) -> (r: Option<Vec<String>>)
    ensures
        opt_strings_view(r) == opt_strings_view(*v),
{
    match v {
        Some(v) => Some(copy_strings(v)),
        None => None,
    }
}

impl Validity {
    /// A copy of these constraints.
    pub fn duplicate(&self) -> (r: Validity)
        ensures
            r@ == self@,
    {
        Validity { refund: copy_opt_vec(&self.refund), refund_config: copy_opt_vec(&self.refund_config) }
    }
}

impl Privacy {
    /// A copy of these settings.
    pub fn duplicate(&self) -> (r: Privacy)
        ensures
            r@ == self@,
    {
        Privacy { hints: copy_opt_strings(&self.hints), builders: copy_opt_strings(&self.builders) }
    }
}

/// Block-level overrides for simulation; 256-bit values are held as
/// 32 big-endian bytes.
#[derive(Debug)]
pub struct BlockOverrides {
    /// Override block number
    pub number: Option<u64>,
    /// Override timestamp
    pub timestamp: Option<u64>,
    /// Override gas limit
    pub gas_limit: Option<u64>,
    /// Override beneficiary/coinbase
    pub beneficiary: Option<[u8; 20]>,
    /// Override base fee (big-endian)
    pub base_fee_per_gas: Option<[u8; 32]>,
}

} // verus!
