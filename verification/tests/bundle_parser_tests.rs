use mev_bundle::parser::{flatten_bundle, BundleParseError};
use mev_bundle::types::{
    BundleItem, Inclusion, Privacy, RefundConfig, RefundEntry, SendBundleRequest, Validity,
    MAX_BUNDLE_BODY_SIZE, MAX_NESTED_BUNDLE_DEPTH,
};

/// A live EIP-1559 transaction (mainnet), signed by 0x001e2b7d…7eFcE.
const TX_1559: &str = "02f86f0102843b9aca0085029e7822d68298f094d9e1459a7a482635700cbc20bbaf52d495ab9c9680841b55ba3ac080a0c199674fcb29f353693dd779c017823b954b3c69dffa3cd6b2a6ff7888798039a028ca912de909e7e6cdef9cdcaf24c54dd8c1032946dfa1d85c206b32a9064fe8";
const SIGNER_1559: &str = "001e2b7dE757bA469a57bF6b23d982458a07eFcE";

/// A live legacy transaction (mainnet), signed by 0xa12e1462…D7C8a4.
const TX_LEGACY: &str = "f9015482078b8505d21dba0083022ef1947a250d5630b4cf539739df2c5dacb4c659f2488d880c46549a521b13d8b8e47ff36ab50000000000000000000000000000000000000000000066ab5a608bd00a23f2fe000000000000000000000000000000000000000000000000000000000000008000000000000000000000000048c04ed5691981c42154c6167398f95e8f38a7ff00000000000000000000000000000000000000000000000000000000632ceac70000000000000000000000000000000000000000000000000000000000000002000000000000000000000000c02aaa39b223fe8d0a0e5c4f27ead9083c756cc20000000000000000000000006c6ee5e31d828de241282b9606c8e98ea48526e225a0c9077369501641a92ef7399ff81c21639ed4fd8fc69cb793cfa1dbfab342e10aa0615facb2f1bcf3274a354cfe384a38d0cc008a11c2dd23a69111bc6930ba27a8";
const SIGNER_LEGACY: &str = "a12e1462d0ceD572f396F58B6E2D03894cD7C8a4";

fn bytes(h: &str) -> Vec<u8> {
    hex::decode(h).unwrap()
}

fn addr(h: &str) -> [u8; 20] {
    let v = hex::decode(h).unwrap();
    let mut a = [0u8; 20];
    a.copy_from_slice(&v);
    a
}

fn tx_item(tx: Vec<u8>, can_revert: bool) -> BundleItem {
    BundleItem::Tx { tx, can_revert }
}

fn bundle_of(body: Vec<BundleItem>) -> SendBundleRequest {
    SendBundleRequest {
        bundle_body: body,
        inclusion: Inclusion { block_number: 1, max_block_number: Some(10) },
        validity: None,
        privacy: None,
    }
}

/// A test bundle whose one transaction is a single zero byte.
fn create_test_bundle() -> SendBundleRequest {
    bundle_of(vec![tx_item(vec![0x00], false)])
}

/// The test bundle with a transaction that decodes and has a signer.
fn create_signed_test_bundle() -> SendBundleRequest {
    bundle_of(vec![tx_item(bytes(TX_1559), false)])
}

#[test]
fn test_validate_inclusion() {
    let mut bundle = create_signed_test_bundle();

    // Valid inclusion
    bundle.inclusion.block_number = 5;
    bundle.inclusion.max_block_number = Some(10);
    assert!(flatten_bundle(&bundle).is_ok());

    // Invalid: max < min
    bundle.inclusion.block_number = 10;
    bundle.inclusion.max_block_number = Some(5);
    assert!(matches!(flatten_bundle(&bundle), Err(BundleParseError::InvalidInclusion)));

    // Invalid: block_number == 0
    bundle.inclusion.block_number = 0;
    bundle.inclusion.max_block_number = Some(10);
    assert!(matches!(flatten_bundle(&bundle), Err(BundleParseError::InvalidInclusion)));
}

#[test]
fn test_bundle_size_limit() {
    let mut bundle = create_test_bundle();

    // Create bundle exceeding size limit
    let mut body = Vec::new();
    for _ in 0..MAX_BUNDLE_BODY_SIZE + 1 {
        body.push(BundleItem::Tx { tx: vec![0x00], can_revert: false });
    }
    bundle.bundle_body = body;

    assert!(matches!(flatten_bundle(&bundle), Err(BundleParseError::BundleTooLarge)));
}

#[test]
fn test_nested_depth_limit() {
    // Create deeply nested bundle
    let mut bundle = create_test_bundle();
    for _ in 0..MAX_NESTED_BUNDLE_DEPTH + 1 {
        bundle = SendBundleRequest {
            bundle_body: vec![BundleItem::Bundle { bundle: Box::new(bundle) }],
            inclusion: Inclusion { block_number: 1, max_block_number: Some(10) },
            validity: None,
            privacy: None,
        };
    }

    assert!(matches!(flatten_bundle(&bundle), Err(BundleParseError::MaxDepthExceeded)));
}

#[test]
fn zero_byte_transaction_does_not_decode() {
    let bundle = create_test_bundle();
    assert!(matches!(
        flatten_bundle(&bundle),
        Err(BundleParseError::TransactionDecodeError(_))
    ));
}

#[test]
fn empty_list_does_not_decode() {
    // An RLP list that is no legacy transaction: decoding fails.
    let bundle = bundle_of(vec![tx_item(vec![0xc0], false)]);
    assert!(matches!(
        flatten_bundle(&bundle),
        Err(BundleParseError::TransactionDecodeError(_))
    ));
}

#[test]
fn signed_transaction_flattens_with_its_sender() {
    let bundle = create_signed_test_bundle();
    let items = flatten_bundle(&bundle).unwrap();
    assert_eq!(items.len(), 1);
    assert_eq!(items[0].sender, addr(SIGNER_1559));
    assert_eq!(items[0].tx.encoded(), &bytes(TX_1559)[..]);
    assert!(!items[0].can_revert);
    assert_eq!(items[0].inclusion, Inclusion { block_number: 1, max_block_number: Some(10) });
    assert_eq!(items[0].refund_percent, None);
    assert!(items[0].refund_configs.is_none());
    assert!(items[0].validity.is_none());
    assert!(items[0].privacy.is_none());
}

#[test]
fn legacy_transaction_flattens_with_its_sender() {
    let bundle = bundle_of(vec![tx_item(bytes(TX_LEGACY), true)]);
    let items = flatten_bundle(&bundle).unwrap();
    assert_eq!(items.len(), 1);
    assert_eq!(items[0].sender, addr(SIGNER_LEGACY));
    assert!(items[0].can_revert);
}

#[test]
fn nested_bundles_flatten_in_order() {
    let inner = SendBundleRequest {
        bundle_body: vec![tx_item(bytes(TX_LEGACY), true)],
        inclusion: Inclusion { block_number: 7, max_block_number: None },
        validity: None,
        privacy: None,
    };
    let outer = bundle_of(vec![
        tx_item(bytes(TX_1559), false),
        BundleItem::Bundle { bundle: Box::new(inner) },
        tx_item(bytes(TX_1559), true),
    ]);
    let items = flatten_bundle(&outer).unwrap();
    assert_eq!(items.len(), 3);
    assert_eq!(items[0].sender, addr(SIGNER_1559));
    assert_eq!(items[1].sender, addr(SIGNER_LEGACY));
    assert_eq!(items[2].sender, addr(SIGNER_1559));
    assert!(!items[0].can_revert);
    assert!(items[1].can_revert);
    assert!(items[2].can_revert);
    // Each item carries the inclusion range of the bundle that holds it.
    assert_eq!(items[0].inclusion.block_number, 1);
    assert_eq!(items[1].inclusion, Inclusion { block_number: 7, max_block_number: None });
    assert_eq!(items[2].inclusion.block_number, 1);
}

#[test]
fn depth_limit_allows_the_maximum() {
    // MAX_NESTED_BUNDLE_DEPTH levels in all.
    let mut bundle = create_signed_test_bundle();
    for _ in 0..MAX_NESTED_BUNDLE_DEPTH - 1 {
        bundle = bundle_of(vec![BundleItem::Bundle { bundle: Box::new(bundle) }]);
    }
    assert_eq!(flatten_bundle(&bundle).unwrap().len(), 1);

    let bundle = bundle_of(vec![BundleItem::Bundle { bundle: Box::new(bundle) }]);
    assert!(matches!(flatten_bundle(&bundle), Err(BundleParseError::MaxDepthExceeded)));
}

#[test]
fn size_limit_allows_the_maximum() {
    let mut body = Vec::new();
    for _ in 0..MAX_BUNDLE_BODY_SIZE {
        body.push(tx_item(bytes(TX_1559), false));
    }
    let bundle = bundle_of(body);
    assert_eq!(flatten_bundle(&bundle).unwrap().len(), MAX_BUNDLE_BODY_SIZE);
}

#[test]
fn hash_items_are_refused() {
    let bundle = bundle_of(vec![
        tx_item(bytes(TX_1559), false),
        BundleItem::Hash { hash: [7u8; 32] },
    ]);
    assert!(matches!(flatten_bundle(&bundle), Err(BundleParseError::HashItemNotSupported)));
}

#[test]
fn first_error_in_order_wins() {
    // A transaction that does not decode comes before a nested bundle that is
    // too deep: the decode error is reported.
    let mut deep = create_signed_test_bundle();
    for _ in 0..MAX_NESTED_BUNDLE_DEPTH + 1 {
        deep = bundle_of(vec![BundleItem::Bundle { bundle: Box::new(deep) }]);
    }
    let bundle = bundle_of(vec![
        tx_item(vec![0x00], false),
        BundleItem::Bundle { bundle: Box::new(deep) },
    ]);
    assert!(matches!(
        flatten_bundle(&bundle),
        Err(BundleParseError::TransactionDecodeError(_))
    ));
}

#[test]
fn missing_maximum_block_means_single_block() {
    let mut bundle = create_signed_test_bundle();
    bundle.inclusion = Inclusion { block_number: 3, max_block_number: None };
    assert!(flatten_bundle(&bundle).is_ok());
    bundle.inclusion = Inclusion { block_number: 0, max_block_number: None };
    assert!(matches!(flatten_bundle(&bundle), Err(BundleParseError::InvalidInclusion)));
    // The inclusion check comes before any transaction is decoded.
    let mut undecodable = create_test_bundle();
    undecodable.inclusion = Inclusion { block_number: 3, max_block_number: Some(2) };
    assert!(matches!(flatten_bundle(&undecodable), Err(BundleParseError::InvalidInclusion)));
}

fn with_validity(refund: Option<Vec<RefundEntry>>, refund_config: Option<Vec<RefundConfig>>) -> SendBundleRequest {
    let mut bundle = bundle_of(vec![tx_item(bytes(TX_1559), false), tx_item(bytes(TX_LEGACY), false)]);
    bundle.validity = Some(Validity { refund, refund_config });
    bundle
}

#[test]
fn refunds_are_looked_up_by_body_index() {
    let bundle = with_validity(
        Some(vec![
            RefundEntry { body_idx: 1, percent: 30 },
            RefundEntry { body_idx: 1, percent: 20 },
            RefundEntry { body_idx: 0, percent: 10 },
        ]),
        Some(vec![RefundConfig { address: [1u8; 20], percent: 60 }]),
    );
    let items = flatten_bundle(&bundle).unwrap();
    assert_eq!(items[0].refund_percent, Some(10));
    // The first entry that names the index is taken.
    assert_eq!(items[1].refund_percent, Some(30));
    let configs = items[0].refund_configs.as_ref().unwrap();
    assert_eq!(configs.len(), 1);
    assert_eq!(configs[0].address, [1u8; 20]);
    assert_eq!(configs[0].percent, 60);
    let validity = items[1].validity.as_ref().unwrap();
    assert_eq!(validity.refund.as_ref().unwrap().len(), 3);
}

#[test]
fn refund_index_out_of_range_is_invalid() {
    let bundle = with_validity(Some(vec![RefundEntry { body_idx: 2, percent: 10 }]), None);
    assert!(matches!(flatten_bundle(&bundle), Err(BundleParseError::InvalidValidity)));
}

#[test]
fn refunds_over_one_hundred_percent_are_invalid() {
    let bundle = with_validity(
        Some(vec![RefundEntry { body_idx: 0, percent: 60 }, RefundEntry { body_idx: 1, percent: 41 }]),
        None,
    );
    assert!(matches!(flatten_bundle(&bundle), Err(BundleParseError::InvalidValidity)));
    let bundle = with_validity(Some(vec![RefundEntry { body_idx: 0, percent: 101 }]), None);
    assert!(matches!(flatten_bundle(&bundle), Err(BundleParseError::InvalidValidity)));
    let bundle = with_validity(Some(vec![RefundEntry { body_idx: 0, percent: u64::MAX }]), None);
    assert!(matches!(flatten_bundle(&bundle), Err(BundleParseError::InvalidValidity)));
    let bundle = with_validity(
        Some(vec![RefundEntry { body_idx: 0, percent: 60 }, RefundEntry { body_idx: 1, percent: 40 }]),
        None,
    );
    assert!(flatten_bundle(&bundle).is_ok());
}

#[test]
fn refund_configs_over_one_hundred_percent_are_invalid() {
    let bundle = with_validity(
        None,
        Some(vec![
            RefundConfig { address: [1u8; 20], percent: 50 },
            RefundConfig { address: [2u8; 20], percent: 51 },
        ]),
    );
    assert!(matches!(flatten_bundle(&bundle), Err(BundleParseError::InvalidValidity)));
    let bundle = with_validity(None, Some(vec![RefundConfig { address: [1u8; 20], percent: 100 }]));
    assert!(flatten_bundle(&bundle).is_ok());
}

#[test]
fn privacy_is_copied_to_every_item() {
    let mut bundle = create_signed_test_bundle();
    bundle.privacy = Some(Privacy {
        hints: Some(vec!["calldata".to_string(), "logs".to_string()]),
        builders: None,
    });
    let items = flatten_bundle(&bundle).unwrap();
    let privacy = items[0].privacy.as_ref().unwrap();
    assert_eq!(privacy.hints.as_ref().unwrap(), &vec!["calldata".to_string(), "logs".to_string()]);
    assert!(privacy.builders.is_none());
}

#[test]
fn decode_error_carries_the_decoder_message() {
    let expected = <alloy_consensus::TxEnvelope as alloy_rlp::Decodable>::decode(&mut &[0x00u8][..])
        .unwrap_err()
        .to_string();
    match flatten_bundle(&create_test_bundle()) {
        Err(BundleParseError::TransactionDecodeError(m)) => assert_eq!(m, expected),
        other => panic!("unexpected outcome: {:?}", other.map(|v| v.len())),
    }
}

#[test]
fn error_messages() {
    assert_eq!(BundleParseError::MaxDepthExceeded.message(), "maximum bundle depth exceeded");
    assert_eq!(BundleParseError::BundleTooLarge.message(), "bundle too large");
    assert_eq!(BundleParseError::InvalidInclusion.message(), "invalid inclusion constraints");
    assert_eq!(BundleParseError::InvalidValidity.message(), "invalid validity configuration");
    assert_eq!(
        BundleParseError::HashItemNotSupported.message(),
        "hash-only bundle items not supported in simulation"
    );
    assert_eq!(
        BundleParseError::SenderRecoveryError("Failed to recover the signer".to_string()).message(),
        "failed to recover sender: Failed to recover the signer"
    );
    let expected = format!(
        "failed to decode transaction: {}",
        <alloy_consensus::TxEnvelope as alloy_rlp::Decodable>::decode(&mut &[0x00u8][..])
            .unwrap_err()
    );
    match flatten_bundle(&create_test_bundle()) {
        Err(e) => assert_eq!(e.message(), expected),
        Ok(_) => panic!("the zero byte decoded"),
    }
}
