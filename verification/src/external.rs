//! The outside crates' types and functions that the library uses: alloy's
//! transaction envelope, its RLP decoding and encoding, signer recovery, and
//! 256-bit integers.
use alloy_consensus::crypto::RecoveryError;
use vstd::prelude::*;
use vstd::string::to_string_from_display_ensures;

verus! {

// The outside types below are opaque: they are only carried through.

/// alloy's transaction envelope (`TxEnvelope` is one instance of it).
#[verifier::external_type_specification]
#[verifier::external_body]
#[verifier::reject_recursive_types(Eip4844)]
pub struct ExEthereumTxEnvelope<Eip4844>(alloy_consensus::EthereumTxEnvelope<Eip4844>);

/// alloy's EIP-4844 transaction, with or without its sidecar.
#[verifier::external_type_specification]
#[verifier::external_body]
#[verifier::reject_recursive_types(T)]
pub struct ExTxEip4844Variant<T>(alloy_consensus::TxEip4844Variant<T>);

/// alloy's blob sidecar.
#[verifier::external_type_specification]
#[verifier::external_body]
pub struct ExBlobTransactionSidecarVariant(alloy_consensus::BlobTransactionSidecarVariant);

/// alloy-rlp's decoding error.
#[verifier::external_type_specification]
#[verifier::external_body]
pub struct ExRlpError(alloy_rlp::Error);

/// alloy's signer recovery error.
#[verifier::external_type_specification]
#[verifier::external_body]
pub struct ExRecoveryError(alloy_consensus::crypto::RecoveryError);

/// alloy's RPC log.
#[verifier::external_type_specification]
#[verifier::external_body]
#[verifier::reject_recursive_types(T)]
pub struct ExLog<T>(alloy_rpc_types_eth::Log<T>);

/// alloy's log data.
#[verifier::external_type_specification]
#[verifier::external_body]
pub struct ExLogData(alloy_primitives::LogData);

/// A transaction decoded from its encoded bytes, kept together with those
/// bytes. It is made only by `decode_tx`, so the envelope is always the one
/// that `TxEnvelope::decode` gives for `raw`.
#[derive(Debug)]
pub struct DecodedTx {
    envelope: alloy_consensus::TxEnvelope,
    raw: Vec<u8>,
}

impl DecodedTx {
    /// The bytes the transaction was decoded from.
    pub fn encoded(&self) -> (r: &[u8])
        ensures
            r@ == self@,
    {
        self.raw.as_slice()
    }

    /// The envelope this value holds: the one decoded from its bytes.
    pub closed spec fn held_envelope(&self) -> alloy_consensus::TxEnvelope {
        self.envelope
    }

    /// The decoded transaction.
    pub fn envelope(&self) -> (r: &alloy_consensus::TxEnvelope)
        ensures
            *r == self.held_envelope(),
    {
        &self.envelope
    }
}

impl View for DecodedTx {
    type V = Seq<u8>;

    closed spec fn view(&self) -> Seq<u8> {
        self.raw@
    }
}

/// Whether `TxEnvelope::decode` (alloy's network decoding) accepts `data`.
pub uninterp spec fn tx_decodes(data: Seq<u8>) -> bool;

/// The address that `SignerRecoverable::recover_signer` recovers from the
/// transaction decoded from `encoded`, or `None` where it fails.
pub uninterp spec fn tx_signer(encoded: Seq<u8>) -> Option<Seq<u8>>;

/// The text (`Display`) of the error that `TxEnvelope::decode` gives for
/// `data`, where it fails.
pub uninterp spec fn tx_decode_error_text(data: Seq<u8>) -> Seq<char>;

/// The text (`Display`) of alloy's `RecoveryError`, which is the same for
/// every such error.
pub open spec fn recovery_error_text() -> Seq<char> {
    "Failed to recover the signer"@
}

/// What `Encodable::encode` writes for the transaction decoded from `encoded`.
pub uninterp spec fn tx_network_encoding(encoded: Seq<u8>) -> Seq<u8>;

/// Calls `<TxEnvelope as alloy_rlp::Decodable>::decode` on `data`. Claimed:
/// it succeeds exactly where `tx_decodes(data)` holds (a function of the
/// bytes alone), what it gives keeps `data` as its bytes, and the text of
/// its error is `tx_decode_error_text(data)` (also a function of the bytes).
#[verifier::external_body]
pub(crate) fn decode_tx(data: &[u8]) -> (res: Result<DecodedTx, alloy_rlp::Error>)
    ensures
        res is Ok <==> tx_decodes(data@),
        res matches Ok(t) ==> t@ == data@,
        res matches Err(e) ==> forall|text: String|
            #[trigger] to_string_from_display_ensures::<alloy_rlp::Error>(&e, text)
                ==> text@ == tx_decode_error_text(data@),
{
    let mut buf = data;
    <alloy_consensus::TxEnvelope as alloy_rlp::Decodable>::decode(&mut buf)
        .map(|envelope| DecodedTx { envelope, raw: data.to_vec() })
}

/// Calls `SignerRecoverable::recover_signer` on the decoded envelope and
/// gives the address as its 20 bytes. Claimed: the outcome is `tx_signer` of
/// the bytes the envelope was decoded from (decoding and recovery are
/// deterministic). The error's text is the fixed message that alloy's
/// `RecoveryError` displays.
#[verifier::external_body]
pub(crate) fn recover_signer(tx: &DecodedTx) -> (res: Result<[u8; 20], RecoveryError>)
    ensures
        res is Ok <==> tx_signer(tx@) is Some,
        res matches Ok(a) ==> tx_signer(tx@) == Some(a@),
        res matches Err(e) ==> forall|text: String|
            #[trigger] to_string_from_display_ensures::<RecoveryError>(&e, text)
                ==> text@ == recovery_error_text(),
{
    alloy_consensus::transaction::SignerRecoverable::recover_signer(&tx.envelope).map(
        |a: alloy_primitives::Address| a.into_array(),
    )
}

/// Calls `<TxEnvelope as alloy_rlp::Encodable>::encode` into an empty buffer.
/// Claimed: the bytes are `tx_network_encoding` of the bytes the envelope was
/// decoded from.
#[verifier::external_body]
pub(crate) fn encode_tx(tx: &DecodedTx) -> (res: Vec<u8>)
    ensures
        res@ == tx_network_encoding(tx@),
{
    let mut buf: Vec<u8> = Vec::new();
    alloy_rlp::Encodable::encode(&tx.envelope, &mut buf);
    buf
}

/// Calls `<Address as alloy_rlp::Encodable>::encode` into an empty buffer.
/// Claimed, from alloy-rlp's encoding of a 20-byte string: the header byte
/// 0x80 + 20 followed by the 20 bytes.
#[verifier::external_body]
pub(crate) fn encode_address(addr: [u8; 20]) -> (res: Vec<u8>)
    ensures
        res@ == seq![0x94u8] + addr@,
{
    let mut buf: Vec<u8> = Vec::new();
    alloy_rlp::Encodable::encode(&alloy_primitives::Address::from(addr), &mut buf);
    buf
}

/// The number that big-endian bytes stand for.
pub open spec fn be_value(s: Seq<u8>) -> nat
    decreases s.len(),
{
    if s.len() == 0 {
        0
    } else {
        be_value(s.drop_last()) * 256 + s.last() as nat
    }
}

/// Calls `U256::from_be_bytes` and then `Uint::to::<u64>`, which panics where
/// the value does not fit. Claimed: the value of the big-endian bytes.
#[verifier::external_body]
pub(crate) fn u256_be_to_u64(be: [u8; 32]) -> (res: u64)
    requires
        be_value(be@) <= u64::MAX,
    ensures
        res == be_value(be@),
{
    alloy_primitives::U256::from_be_bytes(be).to::<u64>()
}

} // verus!
