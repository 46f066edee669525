use mev_bundle::executor::{
    bundle_result_from_raw, chain_config_for, null_bundle_result, prepare_bundle,
    BundleInclusion, ChainConfig, RawBundleResult, NO_REFUND_PERCENT,
};
use mev_bundle::sim::{
    apply_block_overrides, bundle_inclusion, prepare_simulation, sim_bundle_response,
    sim_timeout_secs, simulation_block_id, HeaderFields,
};
use mev_bundle::types::{
    BlockOverrides, BundleItem, Inclusion, RefundConfig, RefundEntry, SendBundleRequest, Validity,
    DEFAULT_SIM_TIMEOUT_SECS, MAX_SIM_TIMEOUT_SECS,
};

const TX_1559: &str = "02f86f0102843b9aca0085029e7822d68298f094d9e1459a7a482635700cbc20bbaf52d495ab9c9680841b55ba3ac080a0c199674fcb29f353693dd779c017823b954b3c69dffa3cd6b2a6ff7888798039a028ca912de909e7e6cdef9cdcaf24c54dd8c1032946dfa1d85c206b32a9064fe8";
const SIGNER_1559: &str = "001e2b7dE757bA469a57bF6b23d982458a07eFcE";

fn bytes(h: &str) -> Vec<u8> {
    hex::decode(h).unwrap()
}

fn signed_bundle(validity: Option<Validity>) -> SendBundleRequest {
    SendBundleRequest {
        bundle_body: vec![BundleItem::Tx { tx: bytes(TX_1559), can_revert: false }],
        inclusion: Inclusion { block_number: 100, max_block_number: Some(200) },
        validity,
        privacy: None,
    }
}

#[test]
fn test_bundle_inclusion() {
    let inclusion = BundleInclusion { min_block_number: 100, max_block_number: Some(200) };

    assert_eq!(inclusion.min_block_number, 100);
    assert_eq!(inclusion.max_block_number, Some(200));
}

#[test]
fn test_bundle_transaction_creation() {
    let request = prepare_simulation(&signed_bundle(None)).unwrap();
    let mut tx = request.transactions.into_iter().next().unwrap();
    tx.refund_percent = Some(50);
    tx.refund_configs = vec![];

    assert!(!tx.can_revert);
    assert_eq!(tx.refund_percent, Some(50));
}

#[test]
fn timeout_is_capped() {
    assert_eq!(sim_timeout_secs(None), DEFAULT_SIM_TIMEOUT_SECS);
    assert_eq!(sim_timeout_secs(Some(0)), 0);
    assert_eq!(sim_timeout_secs(Some(12)), 12);
    assert_eq!(sim_timeout_secs(Some(MAX_SIM_TIMEOUT_SECS)), 30);
    assert_eq!(sim_timeout_secs(Some(31)), 5);
    assert_eq!(sim_timeout_secs(Some(u64::MAX)), 5);
}

#[test]
fn simulation_converts_percentages_and_inclusion() {
    let validity = Validity {
        refund: Some(vec![RefundEntry { body_idx: 0, percent: 50 }]),
        refund_config: Some(vec![
            RefundConfig { address: [1u8; 20], percent: 70 },
            RefundConfig { address: [2u8; 20], percent: 30 },
        ]),
    };
    let request = prepare_simulation(&signed_bundle(Some(validity))).unwrap();
    assert_eq!(request.transactions.len(), 1);
    let tx = &request.transactions[0];
    assert_eq!(tx.refund_percent, Some(50u8));
    assert_eq!(tx.refund_configs, vec![([1u8; 20], 70u8), ([2u8; 20], 30u8)]);
    assert_eq!(tx.sender.to_vec(), bytes(SIGNER_1559));
    assert_eq!(request.inclusion, BundleInclusion { min_block_number: 100, max_block_number: Some(200) });

    let request = prepare_simulation(&signed_bundle(None)).unwrap();
    assert_eq!(request.transactions[0].refund_percent, None);
    assert!(request.transactions[0].refund_configs.is_empty());
}

#[test]
fn simulation_fails_as_flattening_does() {
    let mut bundle = signed_bundle(None);
    bundle.inclusion.block_number = 0;
    assert!(matches!(
        prepare_simulation(&bundle),
        Err(mev_bundle::BundleParseError::InvalidInclusion)
    ));
}

#[test]
fn inclusion_is_handed_on() {
    let inc = bundle_inclusion(&Inclusion { block_number: 5, max_block_number: None });
    assert_eq!(inc, BundleInclusion { min_block_number: 5, max_block_number: None });
}

#[test]
fn executor_preparation() {
    let validity = Validity { refund: Some(vec![RefundEntry { body_idx: 0, percent: 20 }]), refund_config: None };
    let request = prepare_simulation(&signed_bundle(Some(validity))).unwrap();
    let prepared = prepare_bundle(1, &request.transactions, &request.inclusion);
    assert_eq!(prepared.chain_config, ChainConfig::MonadMainnet);
    assert_eq!(prepared.transactions.len(), 1);
    let t = &prepared.transactions[0];
    // Network encoding: a string header around the typed transaction.
    let raw = bytes(TX_1559);
    let mut expected = vec![0xb8, raw.len() as u8];
    expected.extend_from_slice(&raw);
    assert_eq!(t.rlp_tx, expected);
    let mut sender = vec![0x94];
    sender.extend_from_slice(&bytes(SIGNER_1559));
    assert_eq!(t.sender, sender);
    assert_eq!(t.can_revert, 0);
    assert_eq!(t.refund_percent, 20);
    assert_eq!(prepared.inclusion.min_block_number, 100);
    assert_eq!(prepared.inclusion.max_block_number, 200);

    let mut bundle = signed_bundle(None);
    bundle.inclusion.max_block_number = None;
    if let BundleItem::Tx { can_revert, .. } = &mut bundle.bundle_body[0] {
        *can_revert = true;
    }
    let request = prepare_simulation(&bundle).unwrap();
    let prepared = prepare_bundle(10143, &request.transactions, &request.inclusion);
    assert_eq!(prepared.chain_config, ChainConfig::MonadTestnet);
    assert_eq!(prepared.transactions[0].can_revert, 1);
    assert_eq!(prepared.transactions[0].refund_percent, NO_REFUND_PERCENT);
    assert_eq!(prepared.inclusion.max_block_number, 0);
}

#[test]
fn chain_configs() {
    assert_eq!(chain_config_for(1), ChainConfig::MonadMainnet);
    assert_eq!(chain_config_for(0), ChainConfig::MonadTestnet);
    assert_eq!(chain_config_for(143), ChainConfig::MonadTestnet);
}

fn header() -> HeaderFields {
    HeaderFields {
        number: 42,
        timestamp: 1000,
        gas_limit: 30_000_000,
        beneficiary: [9u8; 20],
        base_fee_per_gas: Some(7),
    }
}

#[test]
fn no_overrides_keep_the_header() {
    let mut h = header();
    let none = BlockOverrides { number: None, timestamp: None, gas_limit: None, beneficiary: None, base_fee_per_gas: None };
    apply_block_overrides(&mut h, &none);
    assert_eq!(h.number, 42);
    assert_eq!(h.timestamp, 1000);
    assert_eq!(h.gas_limit, 30_000_000);
    assert_eq!(h.beneficiary, [9u8; 20]);
    assert_eq!(h.base_fee_per_gas, Some(7));
}

#[test]
fn overrides_are_applied() {
    let mut h = header();
    let mut base_fee = [0u8; 32];
    base_fee[30] = 1;
    base_fee[31] = 2;
    let o = BlockOverrides {
        number: Some(99),
        timestamp: Some(2000),
        gas_limit: Some(15),
        beneficiary: Some([3u8; 20]),
        base_fee_per_gas: Some(base_fee),
    };
    apply_block_overrides(&mut h, &o);
    assert_eq!(h.number, 99);
    assert_eq!(h.timestamp, 2000);
    assert_eq!(h.gas_limit, 15);
    assert_eq!(h.beneficiary, [3u8; 20]);
    assert_eq!(h.base_fee_per_gas, Some(258));
}

#[test]
fn block_id_of_finalized_is_zero() {
    assert_eq!(simulation_block_id(None), [0u8; 32]);
    assert_eq!(simulation_block_id(Some([5u8; 32])), [5u8; 32]);
}

#[test]
fn null_result_reports_failure() {
    let r = null_bundle_result();
    assert!(!r.success);
    assert_eq!(r.gas_used, 0);
    assert_eq!(r.mev_gas_price, [0u8; 32]);
    assert_eq!(r.profit, [0u8; 32]);
    assert_eq!(r.refundable_value, [0u8; 32]);
    assert!(r.receipts.is_empty());
    assert!(r.logs.is_empty());
    assert_eq!(r.error.as_deref(), Some("Null result from executor"));
}

#[test]
fn raw_result_is_read() {
    let mut price = [0u8; 32];
    price[31] = 9;
    let r = bundle_result_from_raw(RawBundleResult {
        success: 2,
        gas_used: 50000,
        mev_gas_price: price,
        profit: [1u8; 32],
        refundable_value: [0u8; 32],
        receipts_data: Some(vec![1, 2, 3]),
        error_message: None,
    });
    assert!(r.success);
    assert_eq!(r.gas_used, 50000);
    assert_eq!(r.mev_gas_price, price);
    assert_eq!(r.profit, [1u8; 32]);
    assert_eq!(r.receipts, vec![vec![1u8, 2, 3]]);
    assert!(r.error.is_none());

    let r = bundle_result_from_raw(RawBundleResult {
        success: 0,
        gas_used: 0,
        mev_gas_price: [0u8; 32],
        profit: [0u8; 32],
        refundable_value: [0u8; 32],
        receipts_data: None,
        error_message: Some("out of gas".to_string()),
    });
    assert!(!r.success);
    assert!(r.receipts.is_empty());
    assert_eq!(r.error.as_deref(), Some("out of gas"));
}

#[test]
fn response_from_result() {
    let mut price = [0u8; 32];
    price[31] = 1;
    let result = bundle_result_from_raw(RawBundleResult {
        success: 1,
        gas_used: 50000,
        mev_gas_price: price,
        profit: [2u8; 32],
        refundable_value: [0u8; 32],
        receipts_data: None,
        error_message: None,
    });
    let resp = sim_bundle_response(result, 1000);
    assert!(resp.success);
    assert_eq!(resp.state_block, 1000);
    assert_eq!(resp.gas_used, 50000);
    assert_eq!(resp.mev_gas_price, price);
    assert_eq!(resp.profit, [2u8; 32]);
    assert!(resp.error.is_none());
    assert!(resp.exec_error.is_none());
    assert!(resp.revert.is_none());
    assert!(resp.logs.is_none());
}
