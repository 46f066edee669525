//! Properties of flattening that hold of every bundle.
use vstd::prelude::*;

use crate::external::tx_signer;
use crate::parser::{
    body_trace, bundle_checks_pass, config_total, flatten_trace, configs_valid, find_refund, flatten_body_spec, flatten_spec, inclusion_valid,
    prepend, refund_configs_of, refund_percent_of, refund_total, validity_valid, FlatItemView,
    ParseErrorView,
};
use crate::executor::{prepared_matches, BundleTransaction, PreparedTransaction, NO_REFUND_PERCENT};
use crate::sim::{bundle_tx_of, sim_timeout_spec};
use crate::types::{DEFAULT_SIM_TIMEOUT_SECS, MAX_SIM_TIMEOUT_SECS};
use crate::types::{
    opt_view, BundleItem, RefundConfig, RefundEntry, SendBundleRequest, MAX_BUNDLE_BODY_SIZE,
    MAX_NESTED_BUNDLE_DEPTH,
};

verus! {

// ---------------------------------------------------------------------
// Shapes of a nested bundle
// ---------------------------------------------------------------------
/// The transactions of a bundle (encoded bytes and revert flag), in the
/// order in which they stand in its nested bodies.
pub open spec fn tx_leaves(b: SendBundleRequest) -> Seq<(Seq<u8>, bool)>
    decreases b, b.bundle_body@.len() + 1,
{
    body_tx_leaves(b, 0)
}

pub open spec fn body_tx_leaves(b: SendBundleRequest, i: int) -> Seq<(Seq<u8>, bool)>
    decreases b, b.bundle_body@.len() - i,
{
    if i < 0 || i >= b.bundle_body@.len() {
        Seq::empty()
    } else {
        match b.bundle_body@[i] {
            BundleItem::Tx { tx, can_revert } => seq![(tx@, can_revert)] + body_tx_leaves(b, i + 1),
            BundleItem::Bundle { bundle } => tx_leaves(*bundle) + body_tx_leaves(b, i + 1),
            BundleItem::Hash { .. } => body_tx_leaves(b, i + 1),
        }
    }
}

/// The number of bundle levels: 1 for a bundle with no nested bundle.
pub open spec fn nesting_depth(b: SendBundleRequest) -> int
    decreases b, b.bundle_body@.len() + 1,
{
    1 + body_nesting_depth(b, 0)
}

pub open spec fn body_nesting_depth(b: SendBundleRequest, i: int) -> int
    decreases b, b.bundle_body@.len() - i,
{
    if i < 0 || i >= b.bundle_body@.len() {
        0
    } else {
        let rest = body_nesting_depth(b, i + 1);
        match b.bundle_body@[i] {
            BundleItem::Bundle { bundle } => {
                let d = nesting_depth(*bundle);
                if d > rest {
                    d
                } else {
                    rest
                }
            },
            _ => rest,
        }
    }
}

/// Every body, at every level, holds at most the maximum number of items.
pub open spec fn bodies_within_limit(b: SendBundleRequest) -> bool
    decreases b, b.bundle_body@.len() + 1,
{
    b.bundle_body@.len() <= MAX_BUNDLE_BODY_SIZE && body_bodies_within_limit(b, 0)
}

pub open spec fn body_bodies_within_limit(b: SendBundleRequest, i: int) -> bool
    decreases b, b.bundle_body@.len() - i,
{
    if i < 0 || i >= b.bundle_body@.len() {
        true
    } else {
        body_bodies_within_limit(b, i + 1) && match b.bundle_body@[i] {
            BundleItem::Bundle { bundle } => bodies_within_limit(*bundle),
            _ => true,
        }
    }
}

/// What every flattened item satisfies: its inclusion range is valid, its
/// percentages are at most 100 and add up to at most 100, and its sender is
/// the one recovered from its transaction.
pub open spec fn item_well_formed(f: FlatItemView) -> bool {
    &&& inclusion_valid(f.inclusion)
    &&& (f.refund_percent matches Some(p) ==> p <= 100)
    &&& (f.refund_configs matches Some(c) ==> configs_valid(c) && forall|j: int|
        0 <= j < c.len() ==> (#[trigger] c[j]).percent <= 100)
    &&& tx_signer(f.tx) == Some(f.sender)
}

// ---------------------------------------------------------------------
// Lemmas on sums and lookups
// ---------------------------------------------------------------------
proof fn lemma_refund_entry_le_total(s: Seq<RefundEntry>, k: int)
    requires
        0 <= k < s.len(),
    ensures
        s[k].percent <= refund_total(s),
        0 <= refund_total(s),
    decreases s.len(),
{
    lemma_refund_total_nonneg(s.drop_last());
    if k < s.len() - 1 {
        lemma_refund_entry_le_total(s.drop_last(), k);
    }
}

proof fn lemma_refund_total_nonneg(s: Seq<RefundEntry>)
    ensures
        0 <= refund_total(s),
    decreases s.len(),
{
    if s.len() > 0 {
        lemma_refund_total_nonneg(s.drop_last());
    }
}

proof fn lemma_config_entry_le_total(s: Seq<RefundConfig>, k: int)
    requires
        0 <= k < s.len(),
    ensures
        s[k].percent <= config_total(s),
    decreases s.len(),
{
    lemma_config_total_nonneg(s.drop_last());
    if k < s.len() - 1 {
        lemma_config_entry_le_total(s.drop_last(), k);
    }
}

proof fn lemma_config_total_nonneg(s: Seq<RefundConfig>)
    ensures
        0 <= config_total(s),
    decreases s.len(),
{
    if s.len() > 0 {
        lemma_config_total_nonneg(s.drop_last());
    }
}

proof fn lemma_find_refund_is_entry(s: Seq<RefundEntry>, idx: int)
    ensures
        find_refund(s, idx) matches Some(p) ==> exists|k: int|
            0 <= k < s.len() && (#[trigger] s[k]).percent == p,
    decreases s.len(),
{
    if s.len() > 0 && s[0].body_idx != idx {
        lemma_find_refund_is_entry(s.drop_first(), idx);
        if let Some(p) = find_refund(s, idx) {
            let k = choose|k: int| 0 <= k < s.drop_first().len() && (#[trigger] s.drop_first()[k]).percent == p;
            assert(s[k + 1] == s.drop_first()[k]);
        }
    }
}

proof fn lemma_prepend_all(
    acc: Seq<FlatItemView>,
    r: Result<Seq<FlatItemView>, ParseErrorView>,
    p: spec_fn(FlatItemView) -> bool,
)
    requires
        forall|k: int| 0 <= k < acc.len() ==> p(#[trigger] acc[k]),
        r matches Ok(s) ==> forall|k: int| 0 <= k < s.len() ==> p(#[trigger] s[k]),
    ensures
        prepend(acc, r) matches Ok(s) ==> forall|k: int| 0 <= k < s.len() ==> p(#[trigger] s[k]),
{
    if let Ok(s) = r {
        assert forall|k: int| 0 <= k < (acc + s).len() implies p(#[trigger] (acc + s)[k]) by {
            if k < acc.len() {
                assert((acc + s)[k] == acc[k]);
            } else {
                assert((acc + s)[k] == s[k - acc.len()]);
            }
        }
    }
}

// ---------------------------------------------------------------------
// Well-formed items
// ---------------------------------------------------------------------
proof fn lemma_flatten_well_formed(b: SendBundleRequest, depth: int)
    ensures
        flatten_spec(b, depth) matches Ok(s) ==> forall|k: int|
            0 <= k < s.len() ==> item_well_formed(#[trigger] s[k]),
    decreases b, b.bundle_body@.len() + 1,
{
    if flatten_spec(b, depth) is Ok {
        lemma_body_well_formed(b, depth, 0);
    }
}

proof fn lemma_body_well_formed(b: SendBundleRequest, depth: int, i: int)
    requires
        inclusion_valid(b.inclusion),
        validity_valid(opt_view(b.validity), b.bundle_body@.len() as int),
    ensures
        flatten_body_spec(b, depth, i) matches Ok(s) ==> forall|k: int|
            0 <= k < s.len() ==> item_well_formed(#[trigger] s[k]),
    decreases b, b.bundle_body@.len() - i,
{
    let p = |f: FlatItemView| item_well_formed(f);
    if 0 <= i < b.bundle_body@.len() {
        lemma_body_well_formed(b, depth, i + 1);
        let rest = flatten_body_spec(b, depth, i + 1);
        match b.bundle_body@[i] {
            BundleItem::Tx { tx, can_revert } => {
                if tx_decodes_and_recovers(tx@) {
                    let sender = tx_signer(tx@)->Some_0;
                    let item = crate::parser::tx_item(b, i, tx@, sender, can_revert);
                    let v = opt_view(b.validity);
                    if let Some(pct) = refund_percent_of(v, i) {
                        let r = v->Some_0.refund->Some_0;
                        lemma_find_refund_is_entry(r, i);
                        let k = choose|k: int| 0 <= k < r.len() && (#[trigger] r[k]).percent == pct;
                        lemma_refund_entry_le_total(r, k);
                    }
                    if let Some(c) = refund_configs_of(v) {
                        assert forall|j: int| 0 <= j < c.len() implies (#[trigger] c[j]).percent <= 100 by {
                            lemma_config_entry_le_total(c, j);
                        }
                    }
                    assert(p(item));
                    assert(seq![item][0] == item);
                    lemma_prepend_all(seq![item], rest, p);
                }
            },
            BundleItem::Bundle { bundle } => {
                lemma_flatten_well_formed(*bundle, depth + 1);
                if let Ok(nested) = flatten_spec(*bundle, depth + 1) {
                    lemma_prepend_all(nested, rest, p);
                }
            },
            BundleItem::Hash { .. } => {},
        }
    }
}

spec fn tx_decodes_and_recovers(tx: Seq<u8>) -> bool {
    crate::external::tx_decodes(tx) && tx_signer(tx) is Some
}

// ---------------------------------------------------------------------
// Transactions kept in order
// ---------------------------------------------------------------------
pub open spec fn flat_txs(s: Seq<FlatItemView>) -> Seq<(Seq<u8>, bool)> {
    s.map_values(|f: FlatItemView| (f.tx, f.can_revert))
}

proof fn lemma_flat_txs_concat(a: Seq<FlatItemView>, b: Seq<FlatItemView>)
    ensures
        flat_txs(a + b) == flat_txs(a) + flat_txs(b),
{
    assert(flat_txs(a + b) =~= flat_txs(a) + flat_txs(b));
}

proof fn lemma_flatten_txs(b: SendBundleRequest, depth: int)
    ensures
        flatten_spec(b, depth) matches Ok(s) ==> flat_txs(s) == tx_leaves(b),
    decreases b, b.bundle_body@.len() + 1,
{
    if flatten_spec(b, depth) is Ok {
        lemma_body_txs(b, depth, 0);
    }
}

proof fn lemma_body_txs(b: SendBundleRequest, depth: int, i: int)
    ensures
        flatten_body_spec(b, depth, i) matches Ok(s) ==> flat_txs(s) == body_tx_leaves(b, i),
    decreases b, b.bundle_body@.len() - i,
{
    if 0 <= i < b.bundle_body@.len() {
        lemma_body_txs(b, depth, i + 1);
        if let Ok(s) = flatten_body_spec(b, depth, i) {
            let rest = flatten_body_spec(b, depth, i + 1)->Ok_0;
            match b.bundle_body@[i] {
                BundleItem::Tx { tx, can_revert } => {
                    let sender = tx_signer(tx@)->Some_0;
                    let item = crate::parser::tx_item(b, i, tx@, sender, can_revert);
                    lemma_flat_txs_concat(seq![item], rest);
                    assert(flat_txs(seq![item]) =~= seq![(tx@, can_revert)]);
                },
                BundleItem::Bundle { bundle } => {
                    lemma_flatten_txs(*bundle, depth + 1);
                    lemma_flat_txs_concat(flatten_spec(*bundle, depth + 1)->Ok_0, rest);
                },
                BundleItem::Hash { .. } => {},
            }
        }
    } else {
        if let Ok(s) = flatten_body_spec(b, depth, i) {
            assert(flat_txs(s) =~= Seq::<(Seq<u8>, bool)>::empty());
        }
    }
}

// ---------------------------------------------------------------------
// Nesting and size limits
// ---------------------------------------------------------------------
proof fn lemma_flatten_limits(b: SendBundleRequest, depth: int)
    ensures
        flatten_spec(b, depth) is Ok ==> depth + nesting_depth(b) - 1 <= MAX_NESTED_BUNDLE_DEPTH
            && bodies_within_limit(b),
    decreases b, b.bundle_body@.len() + 1,
{
    if flatten_spec(b, depth) is Ok {
        lemma_body_limits(b, depth, 0);
    }
}

proof fn lemma_body_limits(b: SendBundleRequest, depth: int, i: int)
    requires
        depth <= MAX_NESTED_BUNDLE_DEPTH,
    ensures
        flatten_body_spec(b, depth, i) is Ok ==> depth + body_nesting_depth(b, i)
            <= MAX_NESTED_BUNDLE_DEPTH && body_bodies_within_limit(b, i),
    decreases b, b.bundle_body@.len() - i,
{
    if 0 <= i < b.bundle_body@.len() {
        lemma_body_limits(b, depth, i + 1);
        match b.bundle_body@[i] {
            BundleItem::Bundle { bundle } => {
                lemma_flatten_limits(*bundle, depth + 1);
            },
            _ => {},
        }
    }
}

// ---------------------------------------------------------------------
// Bundles that flatten
// ---------------------------------------------------------------------
/// A body made only of transactions that decode and have a signer.
pub open spec fn signed_transactions_only(b: SendBundleRequest) -> bool {
    forall|i: int|
        0 <= i < b.bundle_body@.len() ==> match #[trigger] b.bundle_body@[i] {
            BundleItem::Tx { tx, .. } => crate::external::tx_decodes(tx@) && tx_signer(tx@) is Some,
            _ => false,
        }
}

proof fn lemma_signed_body_flattens(b: SendBundleRequest, depth: int, i: int)
    requires
        signed_transactions_only(b),
        0 <= i <= b.bundle_body@.len(),
    ensures
        flatten_body_spec(b, depth, i) matches Ok(s) && s.len() == b.bundle_body@.len() - i,
    decreases b.bundle_body@.len() - i,
{
    if i < b.bundle_body@.len() {
        lemma_signed_body_flattens(b, depth, i + 1);
        assert(match b.bundle_body@[i] {
            BundleItem::Tx { tx, .. } => crate::external::tx_decodes(tx@) && tx_signer(tx@) is Some,
            _ => false,
        });
    }
}

// ---------------------------------------------------------------------
// What is appended, also before an error
// ---------------------------------------------------------------------
pub open spec fn is_prefix<A>(a: Seq<A>, b: Seq<A>) -> bool {
    a.len() <= b.len() && a == b.take(a.len() as int)
}

proof fn lemma_prefix_empty<A>(b: Seq<A>)
    ensures
        is_prefix(Seq::<A>::empty(), b),
{
    assert(b.take(0) =~= Seq::<A>::empty());
}

proof fn lemma_prefix_extend<A>(t: Seq<A>, a: Seq<A>, r: Seq<A>)
    requires
        is_prefix(t, a),
    ensures
        is_prefix(t, a + r),
{
    assert((a + r).take(t.len() as int) =~= a.take(t.len() as int));
}

proof fn lemma_prefix_prepend<A>(a: Seq<A>, t: Seq<A>, r: Seq<A>)
    requires
        is_prefix(t, r),
    ensures
        is_prefix(a + t, a + r),
{
    assert((a + r).take((a + t).len() as int) =~= a + r.take(t.len() as int));
}

proof fn lemma_trace_of_ok(b: SendBundleRequest, depth: int)
    ensures
        flatten_spec(b, depth) matches Ok(s) ==> flatten_trace(b, depth) == s,
    decreases b, b.bundle_body@.len() + 1,
{
    if flatten_spec(b, depth) is Ok {
        lemma_body_trace_of_ok(b, depth, 0);
    }
}

proof fn lemma_body_trace_of_ok(b: SendBundleRequest, depth: int, i: int)
    ensures
        flatten_body_spec(b, depth, i) matches Ok(s) ==> body_trace(b, depth, i) == s,
    decreases b, b.bundle_body@.len() - i,
{
    if 0 <= i < b.bundle_body@.len() {
        lemma_body_trace_of_ok(b, depth, i + 1);
        match b.bundle_body@[i] {
            BundleItem::Bundle { bundle } => {
                lemma_trace_of_ok(*bundle, depth + 1);
            },
            _ => {},
        }
    } else {
        if flatten_body_spec(b, depth, i) is Ok {
            assert(body_trace(b, depth, i) =~= flatten_body_spec(b, depth, i)->Ok_0);
        }
    }
}

proof fn lemma_trace_prefix(b: SendBundleRequest, depth: int)
    ensures
        is_prefix(flat_txs(flatten_trace(b, depth)), tx_leaves(b)),
    decreases b, b.bundle_body@.len() + 1,
{
    if bundle_checks_pass(b, depth) {
        lemma_body_trace_prefix(b, depth, 0);
    } else {
        assert(flat_txs(flatten_trace(b, depth)) =~= Seq::<(Seq<u8>, bool)>::empty());
        lemma_prefix_empty(tx_leaves(b));
    }
}

proof fn lemma_body_trace_prefix(b: SendBundleRequest, depth: int, i: int)
    ensures
        is_prefix(flat_txs(body_trace(b, depth, i)), body_tx_leaves(b, i)),
    decreases b, b.bundle_body@.len() - i,
{
    let empty = Seq::<(Seq<u8>, bool)>::empty();
    if 0 <= i < b.bundle_body@.len() {
        lemma_body_trace_prefix(b, depth, i + 1);
        let trace_rest = body_trace(b, depth, i + 1);
        let leaves_rest = body_tx_leaves(b, i + 1);
        match b.bundle_body@[i] {
            BundleItem::Tx { tx, can_revert } => {
                if !crate::external::tx_decodes(tx@) || tx_signer(tx@) is None {
                    assert(flat_txs(body_trace(b, depth, i)) =~= empty);
                    lemma_prefix_empty(body_tx_leaves(b, i));
                } else {
                    let item = crate::parser::tx_item(
                        b,
                        i,
                        tx@,
                        tx_signer(tx@)->Some_0,
                        can_revert,
                    );
                    lemma_flat_txs_concat(seq![item], trace_rest);
                    assert(flat_txs(seq![item]) =~= seq![(tx@, can_revert)]);
                    lemma_prefix_prepend(seq![(tx@, can_revert)], flat_txs(trace_rest), leaves_rest);
                }
            },
            BundleItem::Bundle { bundle } => {
                lemma_trace_prefix(*bundle, depth + 1);
                let t = flatten_trace(*bundle, depth + 1);
                if flatten_spec(*bundle, depth + 1) is Err {
                    lemma_prefix_extend(flat_txs(t), tx_leaves(*bundle), leaves_rest);
                } else {
                    lemma_trace_of_ok(*bundle, depth + 1);
                    lemma_flatten_txs(*bundle, depth + 1);
                    lemma_flat_txs_concat(t, trace_rest);
                    lemma_prefix_prepend(tx_leaves(*bundle), flat_txs(trace_rest), leaves_rest);
                }
            },
            BundleItem::Hash { .. } => {
                assert(flat_txs(body_trace(b, depth, i)) =~= empty);
                lemma_prefix_empty(body_tx_leaves(b, i));
            },
        }
    } else {
        assert(flat_txs(body_trace(b, depth, i)) =~= empty);
        lemma_prefix_empty(body_tx_leaves(b, i));
    }
}

// ---------------------------------------------------------------------
// When flattening succeeds
// ---------------------------------------------------------------------
/// Every level passes its own checks, holds no hash item, and every
/// transaction decodes and has a signer.
pub open spec fn bundle_acceptable(b: SendBundleRequest, depth: int) -> bool
    decreases b, b.bundle_body@.len() + 1,
{
    bundle_checks_pass(b, depth) && body_acceptable(b, depth, 0)
}

pub open spec fn body_acceptable(b: SendBundleRequest, depth: int, i: int) -> bool
    decreases b, b.bundle_body@.len() - i,
{
    if i < 0 || i >= b.bundle_body@.len() {
        true
    } else {
        body_acceptable(b, depth, i + 1) && match b.bundle_body@[i] {
            BundleItem::Tx { tx, .. } => crate::external::tx_decodes(tx@) && tx_signer(tx@) is Some,
            BundleItem::Bundle { bundle } => bundle_acceptable(*bundle, depth + 1),
            BundleItem::Hash { .. } => false,
        }
    }
}

proof fn lemma_flatten_ok_iff(b: SendBundleRequest, depth: int)
    ensures
        flatten_spec(b, depth) is Ok <==> bundle_acceptable(b, depth),
    decreases b, b.bundle_body@.len() + 1,
{
    lemma_body_ok_iff(b, depth, 0);
}

proof fn lemma_body_ok_iff(b: SendBundleRequest, depth: int, i: int)
    ensures
        flatten_body_spec(b, depth, i) is Ok <==> body_acceptable(b, depth, i),
    decreases b, b.bundle_body@.len() - i,
{
    if 0 <= i < b.bundle_body@.len() {
        lemma_body_ok_iff(b, depth, i + 1);
        match b.bundle_body@[i] {
            BundleItem::Bundle { bundle } => {
                lemma_flatten_ok_iff(*bundle, depth + 1);
            },
            _ => {},
        }
    }
}

// ---------------------------------------------------------------------
// The laws
// ---------------------------------------------------------------------
/// Flattening keeps every transaction of the bundle, at every nesting level,
/// with its revert flag, in the order in which the transactions stand, and
/// nothing else.
pub proof fn flatten_keeps_transactions_in_order(b: SendBundleRequest)
    ensures
        flatten_spec(b, 1) matches Ok(s) ==> flat_txs(s) == tx_leaves(b),
{
    lemma_flatten_txs(b, 1);
}

/// Every flattened item carries a valid inclusion range, refund percentages
/// of at most 100 that add up to at most 100, and the sender recovered from
/// its own transaction.
pub proof fn flattened_items_are_well_formed(b: SendBundleRequest)
    ensures
        flatten_spec(b, 1) matches Ok(s) ==> forall|k: int|
            0 <= k < s.len() ==> item_well_formed(#[trigger] s[k]),
{
    lemma_flatten_well_formed(b, 1);
}

/// A bundle flattens only if it nests at most the maximum depth and no body
/// at any level holds more than the maximum number of items.
pub proof fn flatten_respects_limits(b: SendBundleRequest)
    ensures
        flatten_spec(b, 1) is Ok ==> nesting_depth(b) <= MAX_NESTED_BUNDLE_DEPTH
            && bodies_within_limit(b),
{
    lemma_flatten_limits(b, 1);
}

/// Narrowing the percentages of flattened items to a byte, for the executor,
/// loses nothing.
pub proof fn executor_form_keeps_percentages(b: SendBundleRequest)
    ensures
        flatten_spec(b, 1) matches Ok(s) ==> forall|k: int|
            0 <= k < s.len() ==> {
                let t = bundle_tx_of(#[trigger] s[k]);
                &&& (s[k].refund_percent matches Some(p) ==> t.refund_percent == Some(p as u8)
                    && p as u8 == p)
                &&& (s[k].refund_configs matches Some(c) ==> t.refund_configs.len() == c.len()
                    && forall|j: int|
                    0 <= j < c.len() ==> t.refund_configs[j].1 == (#[trigger] c[j]).percent
                        && t.refund_configs[j].0 == c[j].address)
            },
{
    lemma_flatten_well_formed(b, 1);
}

/// A bundle with no nested bundle and no hash item, within the size limit,
/// with a valid inclusion range and no validity constraints, whose
/// transactions all decode and have a signer, flattens to one item per
/// transaction.
pub proof fn signed_flat_bundle_flattens(b: SendBundleRequest)
    requires
        signed_transactions_only(b),
        b.bundle_body@.len() <= MAX_BUNDLE_BODY_SIZE,
        inclusion_valid(b.inclusion),
        b.validity is None,
    ensures
        flatten_spec(b, 1) matches Ok(s) && s.len() == b.bundle_body@.len(),
{
    lemma_signed_body_flattens(b, 1, 0);
}

/// Each flattened item stands for the transaction at the same place among
/// the bundle's transactions: the same encoded bytes, the same revert flag,
/// and the sender recovered from those bytes.
pub proof fn flattened_items_match_leaves(b: SendBundleRequest)
    ensures
        flatten_spec(b, 1) matches Ok(s) ==> s.len() == tx_leaves(b).len() && forall|k: int|
            0 <= k < s.len() ==> {
                &&& (#[trigger] s[k]).tx == tx_leaves(b)[k].0
                &&& s[k].can_revert == tx_leaves(b)[k].1
                &&& tx_signer(tx_leaves(b)[k].0) == Some(s[k].sender)
            },
{
    lemma_flatten_txs(b, 1);
    lemma_flatten_well_formed(b, 1);
    if let Ok(s) = flatten_spec(b, 1) {
        assert forall|k: int| 0 <= k < s.len() implies {
            &&& (#[trigger] s[k]).tx == tx_leaves(b)[k].0
            &&& s[k].can_revert == tx_leaves(b)[k].1
            &&& tx_signer(tx_leaves(b)[k].0) == Some(s[k].sender)
        } by {
            assert(flat_txs(s)[k] == (s[k].tx, s[k].can_revert));
            assert(item_well_formed(s[k]));
        }
    }
}

/// Flattening succeeds exactly when every level is within the depth and
/// size limits, has a valid inclusion range and valid refunds, holds no hash
/// item, and every transaction decodes and has a signer.
pub proof fn flatten_succeeds_exactly_when_acceptable(b: SendBundleRequest)
    ensures
        flatten_spec(b, 1) is Ok <==> bundle_acceptable(b, 1),
{
    lemma_flatten_ok_iff(b, 1);
}

/// At any nesting depth, what flattening appends (`flatten_trace`, which
/// `flatten_bundle_recursive` adds after the items already there) stands for
/// the bundle's transactions in their order: the whole sequence where it
/// succeeds, a leading part of it where it fails.
pub proof fn flatten_appends_transactions_in_order(b: SendBundleRequest, depth: int)
    ensures
        is_prefix(flat_txs(flatten_trace(b, depth)), tx_leaves(b)),
        flatten_spec(b, depth) matches Ok(s) ==> flatten_trace(b, depth) == s && flat_txs(s)
            == tx_leaves(b),
{
    lemma_trace_prefix(b, depth);
    lemma_trace_of_ok(b, depth);
    lemma_flatten_txs(b, depth);
}

// ---------------------------------------------------------------------
// Laws stated on inputs and results
// ---------------------------------------------------------------------
/// The refund entries of a bundle, empty where none are given.
pub open spec fn refund_entries(b: SendBundleRequest) -> Seq<RefundEntry> {
    match b.validity {
        Some(v) => match v.refund {
            Some(r) => r@,
            None => Seq::empty(),
        },
        None => Seq::empty(),
    }
}

proof fn lemma_find_refund_first(s: Seq<RefundEntry>, idx: int)
    ensures
        find_refund(s, idx) is None <==> forall|j: int| 0 <= j < s.len() ==> (#[trigger] s[j]).body_idx != idx,
        find_refund(s, idx) matches Some(p) ==> exists|j: int|
            0 <= j < s.len() && (#[trigger] s[j]).body_idx == idx && s[j].percent == p && forall|k: int|
                0 <= k < j ==> (#[trigger] s[k]).body_idx != idx,
    decreases s.len(),
{
    if s.len() > 0 {
        lemma_find_refund_first(s.drop_first(), idx);
        if s[0].body_idx == idx {
            assert(s[0].body_idx == idx);
        } else {
            assert forall|j: int| 0 <= j < s.len() && j > 0 implies s[j] == s.drop_first()[j - 1] by {}
            if let Some(p) = find_refund(s, idx) {
                let j = choose|j: int|
                    0 <= j < s.drop_first().len() && (#[trigger] s.drop_first()[j]).body_idx == idx
                        && s.drop_first()[j].percent == p && forall|k: int|
                        0 <= k < j ==> (#[trigger] s.drop_first()[k]).body_idx != idx;
                assert(s[j + 1] == s.drop_first()[j]);
                assert forall|k: int| 0 <= k < j + 1 implies (#[trigger] s[k]).body_idx != idx by {
                    if k > 0 {
                        assert(s[k] == s.drop_first()[k - 1]);
                    }
                }
            } else {
                assert forall|j: int| 0 <= j < s.len() implies (#[trigger] s[j]).body_idx != idx by {
                    if j > 0 {
                        assert(s[j] == s.drop_first()[j - 1]);
                    }
                }
            }
        }
    }
}

proof fn lemma_body_suffix(b: SendBundleRequest, depth: int, j: int, i: int)
    requires
        0 <= j <= i <= b.bundle_body@.len(),
    ensures
        flatten_body_spec(b, depth, j) matches Ok(s) ==> flatten_body_spec(b, depth, i) matches Ok(r)
            && r.len() <= s.len() && s.subrange(s.len() - r.len(), s.len() as int) == r,
    decreases i - j,
{
    if let Ok(s) = flatten_body_spec(b, depth, j) {
        if j == i {
            assert(s.subrange(0, s.len() as int) =~= s);
        } else {
            lemma_body_suffix(b, depth, j + 1, i);
            let s1 = flatten_body_spec(b, depth, j + 1)->Ok_0;
            let r = flatten_body_spec(b, depth, i)->Ok_0;
            let head = s.take(s.len() - s1.len());
            assert(s == head + s1);
            assert(s.subrange(s.len() - r.len(), s.len() as int) =~= s1.subrange(
                s1.len() - r.len(),
                s1.len() as int,
            ));
        }
    }
}

/// The inclusion check is a range check: a bundle whose first block is 0, or
/// whose given maximum is below its first block, is refused as
/// `InvalidInclusion`; any other range (a single block among them) passes,
/// and the outcome is then decided by the later checks.
pub proof fn inclusion_check_is_a_range_check(b: SendBundleRequest, depth: int)
    requires
        depth <= MAX_NESTED_BUNDLE_DEPTH,
        b.bundle_body@.len() <= MAX_BUNDLE_BODY_SIZE,
    ensures
        b.inclusion.block_number == 0 ==> flatten_spec(b, depth) matches Err(
            ParseErrorView::InvalidInclusion,
        ),
        (b.inclusion.max_block_number matches Some(m) && m < b.inclusion.block_number)
            ==> flatten_spec(b, depth) matches Err(ParseErrorView::InvalidInclusion),
        b.inclusion.block_number != 0 && (b.inclusion.max_block_number matches Some(m) ==> m
            >= b.inclusion.block_number) ==> flatten_spec(b, depth) == (if validity_valid(
            opt_view(b.validity),
            b.bundle_body@.len() as int,
        ) {
            flatten_body_spec(b, depth, 0)
        } else {
            Err(ParseErrorView::InvalidValidity)
        }),
{
}

/// The item that a transaction of the body yields carries that
/// transaction, its revert flag, and the percentage of the first refund
/// entry that names its body index (counted over all items of the body,
/// nested bundles included), or none where no entry names it. It stands,
/// with what the rest of the body yields, at the end of the result.
pub proof fn refund_percent_follows_body_index(b: SendBundleRequest, depth: int, i: int)
    requires
        0 <= i < b.bundle_body@.len(),
        b.bundle_body@[i] is Tx,
    ensures
        flatten_spec(b, depth) matches Ok(s) ==> flatten_body_spec(b, depth, i) matches Ok(rest) && {
            let r = refund_entries(b);
            &&& 0 < rest.len() <= s.len()
            &&& s.subrange(s.len() - rest.len(), s.len() as int) == rest
            &&& rest[0].tx == b.bundle_body@[i]->tx@
            &&& rest[0].can_revert == b.bundle_body@[i]->can_revert
            &&& rest[0].inclusion == b.inclusion
            &&& (rest[0].refund_percent is None <==> forall|j: int|
                0 <= j < r.len() ==> (#[trigger] r[j]).body_idx != i)
            &&& (rest[0].refund_percent matches Some(p) ==> exists|j: int|
                0 <= j < r.len() && (#[trigger] r[j]).body_idx == i && r[j].percent == p
                    && forall|k: int| 0 <= k < j ==> (#[trigger] r[k]).body_idx != i)
        },
{
    if let Ok(s) = flatten_spec(b, depth) {
        lemma_body_suffix(b, depth, 0, i);
        let r = refund_entries(b);
        lemma_find_refund_first(r, i);
        assert(refund_percent_of(opt_view(b.validity), i) == find_refund(r, i));
    }
}

/// The executor is told that a transaction may revert exactly when its flag
/// says so, whatever its refund; its refund byte is the given percentage, or
/// 255 where none is given.
pub proof fn prepared_flags_follow_the_transaction(p: PreparedTransaction, t: BundleTransaction)
    requires
        prepared_matches(p, t@),
    ensures
        p.can_revert == 1 <==> t.can_revert,
        p.can_revert == 0 <==> !t.can_revert,
        t.refund_percent matches Some(q) ==> p.refund_percent == q,
        t.refund_percent is None ==> p.refund_percent == NO_REFUND_PERCENT,
        p.sender@ == seq![0x94u8] + t.sender@,
{
}

/// The simulation timeout is the one asked for where it is at most the
/// maximum, and the default where none is asked for or it is above the
/// maximum.
pub proof fn timeout_is_the_requested_one_within_the_maximum(timeout: Option<u64>)
    ensures
        timeout matches Some(t) ==> (t <= MAX_SIM_TIMEOUT_SECS ==> sim_timeout_spec(timeout)
            == t),
        timeout matches Some(t) ==> (t > MAX_SIM_TIMEOUT_SECS ==> sim_timeout_spec(timeout)
            == DEFAULT_SIM_TIMEOUT_SECS),
        timeout is None ==> sim_timeout_spec(timeout) == DEFAULT_SIM_TIMEOUT_SECS,
{
}

/// The executor's form of a flattened item keeps its transaction, its
/// sender and its revert flag, whatever its refunds.
pub proof fn executor_form_keeps_the_transaction(f: FlatItemView)
    ensures
        bundle_tx_of(f).tx == f.tx,
        bundle_tx_of(f).sender == f.sender,
        bundle_tx_of(f).can_revert == f.can_revert,
{
}

/// The executor's forms of a flattened bundle stand for the bundle's
/// transactions in order, each with its own revert flag.
pub proof fn executor_forms_keep_transactions_in_order(b: SendBundleRequest)
    ensures
        flatten_spec(b, 1) matches Ok(s) ==> s.map_values(|f: FlatItemView| bundle_tx_of(f)).map_values(
            |t: crate::executor::BundleTxView| (t.tx, t.can_revert),
        ) == tx_leaves(b),
{
    lemma_flatten_txs(b, 1);
    if let Ok(s) = flatten_spec(b, 1) {
        assert(s.map_values(|f: FlatItemView| bundle_tx_of(f)).map_values(
            |t: crate::executor::BundleTxView| (t.tx, t.can_revert),
        ) =~= flat_txs(s));
    }
}

} // verus!
