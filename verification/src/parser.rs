//! Validation and flattening of nested bundles.
use vstd::prelude::*;
use vstd::string::StringExecFns;

use crate::external::{
    decode_tx, recover_signer, recovery_error_text, tx_decode_error_text, tx_decodes, tx_signer,
    DecodedTx,
};
use crate::types::{
    copy_opt_vec, opt_vec_view, opt_view, BundleItem, Inclusion, Privacy, PrivacyView,
    RefundConfig, RefundEntry, SendBundleRequest, Validity, ValidityView,
    MAX_BUNDLE_BODY_SIZE, MAX_NESTED_BUNDLE_DEPTH,
};

verus! {

/// Error types for bundle parsing
#[derive(Debug)]
pub enum BundleParseError {
    MaxDepthExceeded,
    BundleTooLarge,
    InvalidInclusion,
    InvalidValidity,
    HashItemNotSupported,
    TransactionDecodeError(String),
    SenderRecoveryError(String),
}

impl BundleParseError {
    /// The text of this error.
    pub open spec fn message_spec(&self) -> Seq<char> {
        match self {
            BundleParseError::MaxDepthExceeded => "maximum bundle depth exceeded"@,
            BundleParseError::BundleTooLarge => "bundle too large"@,
            BundleParseError::InvalidInclusion => "invalid inclusion constraints"@,
            BundleParseError::InvalidValidity => "invalid validity configuration"@,
            BundleParseError::HashItemNotSupported => "hash-only bundle items not supported in simulation"@,
            BundleParseError::TransactionDecodeError(m) => "failed to decode transaction: "@ + m@,
            BundleParseError::SenderRecoveryError(m) => "failed to recover sender: "@ + m@,
        }
    }

    /// The text of this error.
    pub fn message(&self) -> (r: String)
        ensures
            r@ == self.message_spec(),
    {
        match self {
            BundleParseError::MaxDepthExceeded => "maximum bundle depth exceeded".to_owned(),
            BundleParseError::BundleTooLarge => "bundle too large".to_owned(),
            BundleParseError::InvalidInclusion => "invalid inclusion constraints".to_owned(),
            BundleParseError::InvalidValidity => "invalid validity configuration".to_owned(),
            BundleParseError::HashItemNotSupported => {
                "hash-only bundle items not supported in simulation".to_owned()
            },
            BundleParseError::TransactionDecodeError(m) => {
                "failed to decode transaction: ".to_owned().concat(m.as_str())
            },
            BundleParseError::SenderRecoveryError(m) => {
                "failed to recover sender: ".to_owned().concat(m.as_str())
            },
        }
    }
}

/// A `BundleParseError` with its message as characters.
pub enum ParseErrorView {
    MaxDepthExceeded,
    BundleTooLarge,
    InvalidInclusion,
    InvalidValidity,
    HashItemNotSupported,
    TransactionDecodeError(Seq<char>),
    SenderRecoveryError(Seq<char>),
}

impl View for BundleParseError {
    type V = ParseErrorView;

    open spec fn view(&self) -> ParseErrorView {
        match self {
            BundleParseError::MaxDepthExceeded => ParseErrorView::MaxDepthExceeded,
            BundleParseError::BundleTooLarge => ParseErrorView::BundleTooLarge,
            BundleParseError::InvalidInclusion => ParseErrorView::InvalidInclusion,
            BundleParseError::InvalidValidity => ParseErrorView::InvalidValidity,
            BundleParseError::HashItemNotSupported => ParseErrorView::HashItemNotSupported,
            BundleParseError::TransactionDecodeError(m) => ParseErrorView::TransactionDecodeError(
                m@,
            ),
            BundleParseError::SenderRecoveryError(m) => ParseErrorView::SenderRecoveryError(m@),
        }
    }
}

/// Flattened representation of a bundle item
#[derive(Debug)]
pub struct FlattenedBundleItem {
    /// The decoded transaction
    pub tx: DecodedTx,
    /// Transaction sender (20 bytes)
    pub sender: [u8; 20],
    /// Whether transaction can revert
    pub can_revert: bool,
    /// Inclusion constraints
    pub inclusion: Inclusion,
    /// Validity constraints
    pub validity: Option<Validity>,
    /// Privacy settings
    pub privacy: Option<Privacy>,
    /// Refund percentage for this transaction
    pub refund_percent: Option<u64>,
    /// Refund configurations
    pub refund_configs: Option<Vec<RefundConfig>>,
}

/// What a flattened item holds: the transaction by its encoded bytes.
pub struct FlatItemView {
    pub tx: Seq<u8>,
    pub sender: Seq<u8>,
    pub can_revert: bool,
    pub inclusion: Inclusion,
    pub validity: Option<ValidityView>,
    pub privacy: Option<PrivacyView>,
    pub refund_percent: Option<u64>,
    pub refund_configs: Option<Seq<RefundConfig>>,
}

impl View for FlattenedBundleItem {
    type V = FlatItemView;

    open spec fn view(&self) -> FlatItemView {
        FlatItemView {
            tx: self.tx@,
            sender: self.sender@,
            can_revert: self.can_revert,
            inclusion: self.inclusion,
            validity: opt_view(self.validity),
            privacy: opt_view(self.privacy),
            refund_percent: self.refund_percent,
            refund_configs: opt_vec_view(self.refund_configs),
        }
    }
}

pub open spec fn flat_views(s: Seq<FlattenedBundleItem>) -> Seq<FlatItemView> {
    s.map_values(|x: FlattenedBundleItem| x@)
}

// ---------------------------------------------------------------------
// What a valid bundle is
// ---------------------------------------------------------------------
/// The last block of the inclusion range: the maximum, or the first block
/// where no maximum is given.
pub open spec fn inclusion_last_block(inc: Inclusion) -> u64 {
    match inc.max_block_number {
        Some(m) => m,
        None => inc.block_number,
    }
}

/// An inclusion range is valid when it starts above block 0 and does not end
/// before it starts.
pub open spec fn inclusion_valid(inc: Inclusion) -> bool {
    inc.block_number != 0 && inc.block_number <= inclusion_last_block(inc)
}

pub open spec fn refund_total(s: Seq<RefundEntry>) -> int
    decreases s.len(),
{
    if s.len() == 0 {
        0
    } else {
        refund_total(s.drop_last()) + s.last().percent
    }
}

pub open spec fn config_total(s: Seq<RefundConfig>) -> int
    decreases s.len(),
{
    if s.len() == 0 {
        0
    } else {
        config_total(s.drop_last()) + s.last().percent
    }
}

/// Refund entries are valid when each names an item of the body and the
/// percentages add up to at most 100.
pub open spec fn refunds_valid(s: Seq<RefundEntry>, body_len: int) -> bool {
    &&& forall|i: int| 0 <= i < s.len() ==> (#[trigger] s[i]).body_idx < body_len
    &&& refund_total(s) <= 100
}

/// Refund configurations are valid when their percentages add up to at
/// most 100.
pub open spec fn configs_valid(s: Seq<RefundConfig>) -> bool {
    config_total(s) <= 100
}

pub open spec fn validity_valid(v: Option<ValidityView>, body_len: int) -> bool {
    match v {
        None => true,
        Some(v) => {
            &&& (v.refund matches Some(r) ==> refunds_valid(r, body_len))
            &&& (v.refund_config matches Some(c) ==> configs_valid(c))
        },
    }
}

/// The percentage of the first refund entry that names `idx`.
pub open spec fn find_refund(s: Seq<RefundEntry>, idx: int) -> Option<u64>
    decreases s.len(),
{
    if s.len() == 0 {
        None
    } else if s[0].body_idx == idx {
        Some(s[0].percent)
    } else {
        find_refund(s.drop_first(), idx)
    }
}

pub open spec fn refund_percent_of(v: Option<ValidityView>, idx: int) -> Option<u64> {
    match v {
        Some(v) => match v.refund {
            Some(r) => find_refund(r, idx),
            None => None,
        },
        None => None,
    }
}

pub open spec fn refund_configs_of(v: Option<ValidityView>) -> Option<Seq<RefundConfig>> {
    match v {
        Some(v) => v.refund_config,
        None => None,
    }
}

/// The flattened item for the transaction at `idx` of bundle `b`.
pub open spec fn tx_item(
    b: SendBundleRequest,
    idx: int,
    tx: Seq<u8>,
    sender: Seq<u8>,
    can_revert: bool,
) -> FlatItemView {
    FlatItemView {
        tx,
        sender,
        can_revert,
        inclusion: b.inclusion,
        validity: opt_view(b.validity),
        privacy: opt_view(b.privacy),
        refund_percent: refund_percent_of(opt_view(b.validity), idx),
        refund_configs: refund_configs_of(opt_view(b.validity)),
    }
}

pub open spec fn prepend(
    acc: Seq<FlatItemView>,
    r: Result<Seq<FlatItemView>, ParseErrorView>,
) -> Result<Seq<FlatItemView>, ParseErrorView> {
    match r {
        Ok(s) => Ok(acc + s),
        Err(e) => Err(e),
    }
}

/// The outcome of flattening bundle `b` found at nesting `depth` (the
/// outermost bundle is at depth 1): its checks in order, then its body.
pub open spec fn flatten_spec(b: SendBundleRequest, depth: int) -> Result<
    Seq<FlatItemView>,
    ParseErrorView,
>
    decreases b, b.bundle_body@.len() + 1,
{
    if depth > MAX_NESTED_BUNDLE_DEPTH {
        Err(ParseErrorView::MaxDepthExceeded)
    } else if b.bundle_body@.len() > MAX_BUNDLE_BODY_SIZE {
        Err(ParseErrorView::BundleTooLarge)
    } else if !inclusion_valid(b.inclusion) {
        Err(ParseErrorView::InvalidInclusion)
    } else if !validity_valid(opt_view(b.validity), b.bundle_body@.len() as int) {
        Err(ParseErrorView::InvalidValidity)
    } else {
        flatten_body_spec(b, depth, 0)
    }
}

/// The outcome of flattening the items of `b` from index `i` on, each in
/// order, stopping at the first error.
pub open spec fn flatten_body_spec(b: SendBundleRequest, depth: int, i: int) -> Result<
    Seq<FlatItemView>,
    ParseErrorView,
>
    decreases b, b.bundle_body@.len() - i,
{
    if i < 0 || i >= b.bundle_body@.len() {
        Ok(Seq::empty())
    } else {
        match b.bundle_body@[i] {
            BundleItem::Tx { tx, can_revert } => {
                if !tx_decodes(tx@) {
                    Err(ParseErrorView::TransactionDecodeError(tx_decode_error_text(tx@)))
                } else {
                    match tx_signer(tx@) {
                        None => Err(ParseErrorView::SenderRecoveryError(recovery_error_text())),
                        Some(sender) => prepend(
                            seq![tx_item(b, i, tx@, sender, can_revert)],
                            flatten_body_spec(b, depth, i + 1),
                        ),
                    }
                }
            },
            BundleItem::Bundle { bundle } => {
                match flatten_spec(*bundle, depth + 1) {
                    Err(e) => Err(e),
                    Ok(nested) => prepend(nested, flatten_body_spec(b, depth, i + 1)),
                }
            },
            BundleItem::Hash { .. } => Err(ParseErrorView::HashItemNotSupported),
        }
    }
}

/// Whether bundle `b`, found at nesting `depth`, passes its own checks:
/// depth, size, inclusion range and validity constraints.
pub open spec fn bundle_checks_pass(b: SendBundleRequest, depth: int) -> bool {
    &&& depth <= MAX_NESTED_BUNDLE_DEPTH
    &&& b.bundle_body@.len() <= MAX_BUNDLE_BODY_SIZE
    &&& inclusion_valid(b.inclusion)
    &&& validity_valid(opt_view(b.validity), b.bundle_body@.len() as int)
}

/// The items that flattening `b` at `depth` appends, whether it succeeds or
/// not: none where the bundle's own checks fail, else those of its body.
pub open spec fn flatten_trace(b: SendBundleRequest, depth: int) -> Seq<FlatItemView>
    decreases b, b.bundle_body@.len() + 1,
{
    if !bundle_checks_pass(b, depth) {
        Seq::empty()
    } else {
        body_trace(b, depth, 0)
    }
}

/// The items appended for the body of `b` from index `i` on: those of the
/// transactions before the first failing item, and what a failing nested
/// bundle appended itself.
pub open spec fn body_trace(b: SendBundleRequest, depth: int, i: int) -> Seq<FlatItemView>
    decreases b, b.bundle_body@.len() - i,
{
    if i < 0 || i >= b.bundle_body@.len() {
        Seq::empty()
    } else {
        match b.bundle_body@[i] {
            BundleItem::Tx { tx, can_revert } => {
                if !tx_decodes(tx@) || tx_signer(tx@) is None {
                    Seq::empty()
                } else {
                    seq![tx_item(b, i, tx@, tx_signer(tx@)->Some_0, can_revert)] + body_trace(
                        b,
                        depth,
                        i + 1,
                    )
                }
            },
            BundleItem::Bundle { bundle } => {
                if flatten_spec(*bundle, depth + 1) is Err {
                    flatten_trace(*bundle, depth + 1)
                } else {
                    flatten_trace(*bundle, depth + 1) + body_trace(b, depth, i + 1)
                }
            },
            BundleItem::Hash { .. } => Seq::empty(),
        }
    }
}

proof fn lemma_cancel_prefix(x: Seq<FlatItemView>, s: Seq<FlatItemView>, t: Seq<FlatItemView>)
    requires
        x + s == x + t,
    ensures
        s == t,
{
    assert((x + s).len() == x.len() + s.len());
    assert((x + t).len() == x.len() + t.len());
    assert(s.len() == t.len());
    assert forall|i: int| 0 <= i < s.len() implies s[i] == t[i] by {
        assert((x + s)[x.len() + i] == s[i]);
        assert((x + t)[x.len() + i] == t[i]);
    }
    assert(s =~= t);
}

proof fn lemma_append_assoc(a: Seq<FlatItemView>, b: Seq<FlatItemView>, c: Seq<FlatItemView>)
    ensures
        a + (b + c) == (a + b) + c,
{
    assert(a + (b + c) =~= (a + b) + c);
}

// ---------------------------------------------------------------------
// Lemmas on the specification
// ---------------------------------------------------------------------
proof fn lemma_refund_total_prefix(s: Seq<RefundEntry>, k: int)
    requires
        0 <= k <= s.len(),
    ensures
        refund_total(s.take(k)) <= refund_total(s),
    decreases s.len(),
{
    if k < s.len() {
        lemma_refund_total_prefix(s.drop_last(), k);
        assert(s.drop_last().take(k) =~= s.take(k));
    } else {
        assert(s.take(k) =~= s);
    }
}

proof fn lemma_config_total_prefix(s: Seq<RefundConfig>, k: int)
    requires
        0 <= k <= s.len(),
    ensures
        config_total(s.take(k)) <= config_total(s),
    decreases s.len(),
{
    if k < s.len() {
        lemma_config_total_prefix(s.drop_last(), k);
        assert(s.drop_last().take(k) =~= s.take(k));
    } else {
        assert(s.take(k) =~= s);
    }
}

proof fn lemma_prepend_assoc(
    a: Seq<FlatItemView>,
    b: Seq<FlatItemView>,
    r: Result<Seq<FlatItemView>, ParseErrorView>,
)
    ensures
        prepend(a, prepend(b, r)) == prepend(a + b, r),
{
    if let Ok(s) = r {
        assert(a + (b + s) =~= (a + b) + s);
    }
}

// ---------------------------------------------------------------------
// Checks
// ---------------------------------------------------------------------
/// Whether refund entries are valid for a body of `body_len` items.
fn check_refunds(refunds: &Vec<RefundEntry>, body_len: usize) -> (ok: bool)
    ensures
        ok == refunds_valid(refunds@, body_len as int),
{
    let mut total: u64 = 0;
    let mut i: usize = 0;
    while i < refunds.len()
        invariant
            i <= refunds@.len(),
            total == refund_total(refunds@.take(i as int)),
            total <= 100,
            forall|j: int| 0 <= j < i ==> (#[trigger] refunds@[j]).body_idx < body_len,
        decreases refunds@.len() - i,
    {
        let refund = refunds[i];
        assert(refunds@.take(i + 1).drop_last() =~= refunds@.take(i as int));
        if refund.body_idx as usize >= body_len {
            return false;
        }
        if refund.percent > 100 || total > 100 - refund.percent {
            proof {
                lemma_refund_total_prefix(refunds@, i + 1);
            }
            return false;
        }
        total = total + refund.percent;
        i = i + 1;
    }
    assert(refunds@.take(refunds@.len() as int) =~= refunds@);
    true
}

/// Whether refund configurations are valid.
fn check_refund_configs(configs: &Vec<RefundConfig>) -> (ok: bool)
    ensures
        ok == configs_valid(configs@),
{
    let mut total: u64 = 0;
    let mut i: usize = 0;
    while i < configs.len()
        invariant
            i <= configs@.len(),
            total == config_total(configs@.take(i as int)),
            total <= 100,
        decreases configs@.len() - i,
    {
        let config = configs[i];
        assert(configs@.take(i + 1).drop_last() =~= configs@.take(i as int));
        if config.percent > 100 || total > 100 - config.percent {
            proof {
                lemma_config_total_prefix(configs@, i + 1);
            }
            return false;
        }
        total = total + config.percent;
        i = i + 1;
    }
    assert(configs@.take(configs@.len() as int) =~= configs@);
    true
}

/// The percentage of the first refund entry naming body index `idx`.
fn find_refund_percent(refunds: &Vec<RefundEntry>, idx: usize) -> (r: Option<u64>)
    ensures
        r == find_refund(refunds@, idx as int),
{
    let mut i: usize = 0;
    assert(refunds@.skip(0) =~= refunds@);
    while i < refunds.len()
        invariant
            i <= refunds@.len(),
            find_refund(refunds@, idx as int) == find_refund(refunds@.skip(i as int), idx as int),
        decreases refunds@.len() - i,
    {
        assert(refunds@.skip(i as int)[0] == refunds@[i as int]);
        if refunds[i].body_idx as usize == idx {
            return Some(refunds[i].percent);
        }
        assert(refunds@.skip(i as int).drop_first() =~= refunds@.skip(i + 1));
        i = i + 1;
    }
    assert(refunds@.skip(i as int) =~= Seq::<RefundEntry>::empty());
    None
}

/// Decode a raw transaction
fn decode_transaction(data: &[u8]) -> (res: Result<DecodedTx, BundleParseError>)
    ensures
        res is Ok <==> tx_decodes(data@),
        res matches Ok(t) ==> t@ == data@,
        res matches Err(e) ==> e@ == ParseErrorView::TransactionDecodeError(
            tx_decode_error_text(data@),
        ),
{
    match decode_tx(data) {
        Ok(t) => Ok(t),
        Err(e) => Err(BundleParseError::TransactionDecodeError(e.to_string())),
    }
}

/// Recover sender from transaction
fn recover_sender(tx: &DecodedTx) -> (res: Result<[u8; 20], BundleParseError>)
    ensures
        res is Ok <==> tx_signer(tx@) is Some,
        res matches Ok(a) ==> tx_signer(tx@) == Some(a@),
        res matches Err(e) ==> e@ == ParseErrorView::SenderRecoveryError(recovery_error_text()),
{
    match recover_signer(tx) {
        Ok(a) => Ok(a),
        Err(e) => Err(BundleParseError::SenderRecoveryError(e.to_string())),
    }
}

// ---------------------------------------------------------------------
// Flattening
// ---------------------------------------------------------------------
/// Flatten a potentially nested bundle into a list of transactions.
///
/// The outcome is `flatten_spec(*request, 1)`: the items in the order in
/// which their transactions stand in the nested bodies, or the first error
/// met in that order.
pub fn flatten_bundle(request: &SendBundleRequest) -> (res: Result<
    Vec<FlattenedBundleItem>,
    BundleParseError,
>)
    ensures
        match flatten_spec(*request, 1) {
            Ok(s) => res matches Ok(v) && flat_views(v@) == s,
            Err(k) => res matches Err(e) && e@ == k,
        },
{
    let mut items: Vec<FlattenedBundleItem> = Vec::new();
    assert(flat_views(items@) =~= Seq::<FlatItemView>::empty());
    match flatten_bundle_recursive(request, &mut items, 1) {
        Ok(()) => {
            assert(flat_views(items@) =~= Seq::<FlatItemView>::empty() + flat_views(items@));
            Ok(items)
        },
        Err(e) => Err(e),
    }
}

/// Recursive helper for bundle flattening: appends the items of `bundle`,
/// found at nesting `depth`, to `items`.
fn flatten_bundle_recursive(
    bundle: &SendBundleRequest,
    items: &mut Vec<FlattenedBundleItem>,
    depth: usize,
) -> (res: Result<(), BundleParseError>)
    ensures
        match flatten_spec(*bundle, depth as int) {
            Ok(s) => res is Ok && flat_views(final(items)@) == flat_views(old(items)@) + s,
            Err(k) => res matches Err(e) && e@ == k,
        },
        flat_views(final(items)@) == flat_views(old(items)@) + flatten_trace(*bundle, depth as int),
        !bundle_checks_pass(*bundle, depth as int) ==> final(items)@ == old(items)@,
        old(items)@.len() <= final(items)@.len(),
        forall|j: int| 0 <= j < old(items)@.len() ==> #[trigger] final(items)@[j] == old(items)@[j],
    decreases bundle,
{
    // Check maximum depth
    if depth > MAX_NESTED_BUNDLE_DEPTH {
        return Err(BundleParseError::MaxDepthExceeded);
    }

    // Validate bundle size
    if bundle.bundle_body.len() > MAX_BUNDLE_BODY_SIZE {
        return Err(BundleParseError::BundleTooLarge);
    }

    // Validate inclusion constraints
    let block_number: u64 = bundle.inclusion.block_number();
    let max_block_number: u64 = match bundle.inclusion.max_block_number() {
        Some(m) => m,
        None => block_number,
    };
    if max_block_number < block_number || block_number == 0 {
        return Err(BundleParseError::InvalidInclusion);
    }

    // Validate validity configuration
    if let Some(validity) = &bundle.validity {
        if let Some(refunds) = &validity.refund {
            if !check_refunds(refunds, bundle.bundle_body.len()) {
                return Err(BundleParseError::InvalidValidity);
            }
        }
        if let Some(refund_configs) = &validity.refund_config {
            if !check_refund_configs(refund_configs) {
                return Err(BundleParseError::InvalidValidity);
            }
        }
    }
    assert(flatten_spec(*bundle, depth as int) == flatten_body_spec(*bundle, depth as int, 0));
    assert(bundle_checks_pass(*bundle, depth as int));

    let ghost old_items = items@;
    let ghost mut acc: Seq<FlatItemView> = Seq::empty();
    assert(flat_views(items@) =~= flat_views(old_items) + acc);
    assert(body_trace(*bundle, depth as int, 0) =~= acc + body_trace(*bundle, depth as int, 0));
    assert(flatten_body_spec(*bundle, depth as int, 0) == prepend(
        acc,
        flatten_body_spec(*bundle, depth as int, 0),
    )) by {
        if let Ok(s) = flatten_body_spec(*bundle, depth as int, 0) {
            assert(acc + s =~= s);
        }
    }
    // Process each item in the bundle
    let mut idx: usize = 0;
    while idx < bundle.bundle_body.len()
        invariant
            idx <= bundle.bundle_body@.len(),
            depth <= MAX_NESTED_BUNDLE_DEPTH,
            old_items == old(items)@,
            flatten_spec(*bundle, depth as int) == flatten_body_spec(*bundle, depth as int, 0),
            flat_views(items@) == flat_views(old_items) + acc,
            flatten_body_spec(*bundle, depth as int, 0) == prepend(
                acc,
                flatten_body_spec(*bundle, depth as int, idx as int),
            ),
            flatten_trace(*bundle, depth as int) == body_trace(*bundle, depth as int, 0),
            body_trace(*bundle, depth as int, 0) == acc + body_trace(
                *bundle,
                depth as int,
                idx as int,
            ),
            old_items.len() <= items@.len(),
            forall|j: int| 0 <= j < old_items.len() ==> #[trigger] items@[j] == old_items[j],
        decreases bundle.bundle_body@.len() - idx,
    {
        let ghost rest = flatten_body_spec(*bundle, depth as int, idx + 1);
        let ghost trace_rest = body_trace(*bundle, depth as int, idx + 1);
        match &bundle.bundle_body[idx] {
            BundleItem::Tx { tx, can_revert } => {
                // Decode transaction
                let decoded = match decode_transaction(tx.as_slice()) {
                    Ok(d) => d,
                    Err(e) => {
                        assert(flatten_body_spec(*bundle, depth as int, idx as int) == Err::<
                            Seq<FlatItemView>,
                            ParseErrorView,
                        >(ParseErrorView::TransactionDecodeError(tx_decode_error_text(tx@))));
                        assert(body_trace(*bundle, depth as int, idx as int) =~= Seq::empty());
                        assert(acc + Seq::<FlatItemView>::empty() =~= acc);
                        return Err(e);
                    },
                };
                // Recover sender
                let sender = match recover_sender(&decoded) {
                    Ok(a) => a,
                    Err(e) => {
                        assert(flatten_body_spec(*bundle, depth as int, idx as int) == Err::<
                            Seq<FlatItemView>,
                            ParseErrorView,
                        >(ParseErrorView::SenderRecoveryError(recovery_error_text())));
                        assert(body_trace(*bundle, depth as int, idx as int) =~= Seq::empty());
                        assert(acc + Seq::<FlatItemView>::empty() =~= acc);
                        return Err(e);
                    },
                };
                // Get refund percentage if specified
                let refund_percent = match &bundle.validity {
                    Some(v) => match &v.refund {
                        Some(refunds) => find_refund_percent(refunds, idx),
                        None => None,
                    },
                    None => None,
                };
                // Get refund configs
                let refund_configs = match &bundle.validity {
                    Some(v) => copy_opt_vec(&v.refund_config),
                    None => None,
                };
                let validity = match &bundle.validity {
                    Some(v) => Some(v.duplicate()),
                    None => None,
                };
                let privacy = match &bundle.privacy {
                    Some(p) => Some(p.duplicate()),
                    None => None,
                };
                let flattened = FlattenedBundleItem {
                    tx: decoded,
                    sender,
                    can_revert: *can_revert,
                    inclusion: bundle.inclusion,
                    validity,
                    privacy,
                    refund_percent,
                    refund_configs,
                };
                let ghost item = tx_item(*bundle, idx as int, tx@, sender@, *can_revert);
                assert(flattened@ == item);
                let ghost prev = items@;
                items.push(flattened);
                proof {
                    assert(flat_views(items@) =~= flat_views(prev).push(item));
                    lemma_prepend_assoc(acc, seq![item], rest);
                    assert(flat_views(items@) =~= flat_views(old_items) + acc.push(item));
                    assert(body_trace(*bundle, depth as int, idx as int) == seq![item] + trace_rest);
                    lemma_append_assoc(acc, seq![item], trace_rest);
                    acc = acc + seq![item];
                }
            },
            BundleItem::Bundle { bundle: nested } => {
                let ghost before = items@;
                // Recursively process nested bundle
                let ghost t = flatten_trace(**nested, depth + 1);
                match flatten_bundle_recursive(nested, items, depth + 1) {
                    Ok(()) => {},
                    Err(e) => {
                        proof {
                            assert(body_trace(*bundle, depth as int, idx as int) == t);
                            lemma_append_assoc(flat_views(old_items), acc, t);
                        }
                        return Err(e);
                    },
                }
                proof {
                    let s = flatten_spec(**nested, depth + 1)->Ok_0;
                    lemma_cancel_prefix(flat_views(before), s, t);
                    lemma_prepend_assoc(acc, s, rest);
                    assert(flat_views(items@) =~= flat_views(old_items) + (acc + s));
                    assert(body_trace(*bundle, depth as int, idx as int) == s + trace_rest);
                    lemma_append_assoc(acc, s, trace_rest);
                    acc = acc + s;
                }
            },
            BundleItem::Hash { .. } => {
                // Hash-only items not supported in simulation
                assert(acc + Seq::<FlatItemView>::empty() =~= acc);
                return Err(BundleParseError::HashItemNotSupported);
            },
        }
        idx = idx + 1;
    }
    assert(flatten_body_spec(*bundle, depth as int, idx as int) == Ok::<Seq<FlatItemView>, ParseErrorView>(Seq::empty()));
    assert(acc + Seq::<FlatItemView>::empty() =~= acc);
    assert(body_trace(*bundle, depth as int, idx as int) =~= Seq::empty());
    Ok(())
}

} // verus!
