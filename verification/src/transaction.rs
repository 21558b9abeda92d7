//! The relayer's transaction record, and what the queue does to it.

use vstd::prelude::*;

use crate::primitives::{
    BlockNumber, ChainId, EvmAddress, GasLimit, RelayerId, TransactionHash, TransactionId,
    TransactionNonce, Uint256,
};

verus! {

/// Why a transaction could not be turned into a typed transaction.
#[derive(Debug, Clone, PartialEq, Eq)]
pub enum TransactionConversionError {
    NoGasPrice,
    NoBlobGasPrice,
    NoBlobs,
    BlobSidecarBuild(String),
    NoGasLimit,
}

/// alloy's typed transaction, carried through as an opaque value.
#[verifier::external_type_specification]
#[verifier::external_body]
#[verifier::reject_recursive_types(Eip4844)]
pub struct ExEthereumTypedTransaction<Eip4844>(alloy::consensus::EthereumTypedTransaction<Eip4844>);

/// alloy's EIP-4844 transaction (with or without its sidecar), opaque.
#[verifier::external_type_specification]
#[verifier::external_body]
#[verifier::reject_recursive_types(T)]
pub struct ExTxEip4844Variant<T>(alloy::consensus::TxEip4844Variant<T>);

/// alloy's EIP-4844 blob sidecar (blobs, commitments, proofs), opaque.
#[verifier::external_type_specification]
#[verifier::external_body]
pub struct ExBlobTransactionSidecar(alloy_eips::eip4844::BlobTransactionSidecar);

/// alloy's sidecar of either blob format, opaque.
#[verifier::external_type_specification]
#[verifier::external_body]
pub struct ExBlobTransactionSidecarVariant(alloy_eips::eip7594::BlobTransactionSidecarVariant);

/// The EIP-1559 typed transaction with these fields and an empty access list.
pub uninterp spec fn eip1559_typed_transaction(
    chain_id: u64,
    nonce: u64,
    gas_limit: u64,
    max_fee_per_gas: u128,
    max_priority_fee_per_gas: u128,
    to: EvmAddress,
    value: Uint256,
    input: Seq<u8>,
) -> alloy::consensus::TypedTransaction;

/// The legacy typed transaction with these fields.
pub uninterp spec fn legacy_typed_transaction(
    chain_id: u64,
    nonce: u64,
    gas_limit: u64,
    gas_price: u128,
    to: EvmAddress,
    value: Uint256,
    input: Seq<u8>,
) -> alloy::consensus::TypedTransaction;

/// The KZG blob sidecar built from these blob contents, where one can be built.
pub uninterp spec fn blob_sidecar(blobs: Seq<Seq<u8>>) -> Option<alloy_eips::eip4844::BlobTransactionSidecar>;

/// The EIP-4844 typed transaction with these fields, carrying `sidecar`.
pub uninterp spec fn eip4844_typed_transaction(
    chain_id: u64,
    nonce: u64,
    gas_limit: u64,
    max_fee_per_gas: u128,
    max_priority_fee_per_gas: u128,
    to: EvmAddress,
    value: Uint256,
    max_fee_per_blob_gas: u128,
    input: Seq<u8>,
    sidecar: alloy_eips::eip4844::BlobTransactionSidecar,
) -> alloy::consensus::TypedTransaction;

/// Builds `TypedTransaction::Eip1559(TxEip1559 { .. })` with an empty access list.
#[verifier::external_body]
fn build_eip1559_typed_transaction(
    chain_id: u64,
    nonce: u64,
    gas_limit: u64,
    max_fee_per_gas: u128,
    max_priority_fee_per_gas: u128,
    to: EvmAddress,
    value: Uint256,
    input: &Vec<u8>,
) -> (r: alloy::consensus::TypedTransaction)
    ensures
        r == eip1559_typed_transaction(
            chain_id, nonce, gas_limit, max_fee_per_gas, max_priority_fee_per_gas, to, value, input@,
        ),
{
    alloy::consensus::TypedTransaction::Eip1559(alloy::consensus::TxEip1559 {
        to: alloy::primitives::TxKind::Call(alloy::primitives::Address::from(to.bytes)),
        value: alloy::primitives::U256::from_limbs(value.limbs),
        input: alloy::primitives::Bytes::from(input.clone()),
        gas_limit,
        nonce,
        max_priority_fee_per_gas,
        max_fee_per_gas,
        chain_id,
        access_list: alloy::eips::eip2930::AccessList::default(),
    })
}

/// Builds `TypedTransaction::Legacy(TxLegacy { .. })` with the chain id set.
#[verifier::external_body]
fn build_legacy_typed_transaction(
    chain_id: u64,
    nonce: u64,
    gas_limit: u64,
    gas_price: u128,
    to: EvmAddress,
    value: Uint256,
    input: &Vec<u8>,
) -> (r: alloy::consensus::TypedTransaction)
    ensures
        r == legacy_typed_transaction(chain_id, nonce, gas_limit, gas_price, to, value, input@),
{
    alloy::consensus::TypedTransaction::Legacy(alloy::consensus::TxLegacy {
        to: alloy::primitives::TxKind::Call(alloy::primitives::Address::from(to.bytes)),
        value: alloy::primitives::U256::from_limbs(value.limbs),
        input: alloy::primitives::Bytes::from(input.clone()),
        gas_limit,
        nonce,
        gas_price,
        chain_id: Some(chain_id),
    })
}

/// `SidecarBuilder::<SimpleCoder>::build`: encodes the blob contents and
/// computes their KZG commitments and proofs. It succeeds exactly where the
/// named sidecar exists, and then gives it. The error's text is passed on;
/// which text it is, is not stated.
#[verifier::external_body]
fn build_blob_sidecar(blobs: &Vec<Vec<u8>>) -> (r: Result<alloy_eips::eip4844::BlobTransactionSidecar, String>)
    ensures
        r is Ok <==> blob_sidecar(blobs@.map_values(|b: Vec<u8>| b@)) is Some,
        r is Ok ==> blob_sidecar(blobs@.map_values(|b: Vec<u8>| b@)) == Some(r->Ok_0),
{
    let builder: alloy_eips::eip4844::builder::SidecarBuilder<alloy_eips::eip4844::builder::SimpleCoder> =
        blobs.iter().map(|blob| blob.as_slice()).collect();
    builder.build().map_err(|e: alloy_eips::eip4844::c_kzg::Error| e.to_string())
}

/// Builds `TypedTransaction::Eip4844(TxEip4844WithSidecar { .. })` carrying
/// `sidecar`, with the versioned blob hashes that the sidecar gives and an
/// empty access list.
#[verifier::external_body]
fn build_eip4844_typed_transaction(
    chain_id: u64,
    nonce: u64,
    gas_limit: u64,
    max_fee_per_gas: u128,
    max_priority_fee_per_gas: u128,
    to: EvmAddress,
    value: Uint256,
    max_fee_per_blob_gas: u128,
    input: &Vec<u8>,
    sidecar: alloy_eips::eip4844::BlobTransactionSidecar,
) -> (r: alloy::consensus::TypedTransaction)
    ensures
        r == eip4844_typed_transaction(
            chain_id, nonce, gas_limit, max_fee_per_gas, max_priority_fee_per_gas, to, value,
            max_fee_per_blob_gas, input@, sidecar,
        ),
{
    let blob_versioned_hashes = sidecar.versioned_hashes().collect::<Vec<_>>();
    let tx = alloy::consensus::TxEip4844 {
        chain_id, nonce, max_priority_fee_per_gas, max_fee_per_gas, gas_limit,
        to: alloy::primitives::Address::from(to.bytes),
        value: alloy::primitives::U256::from_limbs(value.limbs),
        access_list: Default::default(), blob_versioned_hashes, max_fee_per_blob_gas,
        input: alloy::primitives::Bytes::from(input.clone()),
    };
    alloy::consensus::TypedTransaction::Eip4844(alloy::consensus::TxEip4844Variant::TxEip4844WithSidecar(
        alloy::consensus::TxEip4844WithSidecar { tx, sidecar: alloy_eips::eip7594::BlobTransactionSidecarVariant::Eip4844(sidecar) },
    ))
}

/// How fast the relayer is asked to get a transaction mined.
#[allow(non_camel_case_types, clippy::upper_case_acronyms)]
#[derive(Debug, Clone, Copy, PartialEq, Eq, Structural)]
pub enum TransactionSpeed {
    SLOW,
    MEDIUM,
    FAST,
    SUPER,
}

/// Where a transaction stands in its life.
#[allow(non_camel_case_types, clippy::upper_case_acronyms)]
#[derive(Debug, Clone, Copy, PartialEq, Eq, Structural)]
pub enum TransactionStatus {
    PENDING,
    INMEMPOOL,
    MINED,
    CONFIRMED,
    FAILED,
    EXPIRED,
    CANCELLED,
}

/// The fees a transaction is sent with.
#[derive(Debug, Clone, Copy, PartialEq, Eq, Structural)]
pub struct GasPriceResult {
    pub max_fee: u128,
    pub max_priority_fee: u128,
    pub min_wait_time_estimate: Option<u64>,
    pub max_wait_time_estimate: Option<u64>,
}

impl GasPriceResult {
    /// The single gas price used for a legacy (pre EIP-1559) transaction.
    pub open spec fn spec_legacy_gas_price(&self) -> u128 {
        self.max_fee
    }

    pub fn legacy_gas_price(&self) -> (r: u128)
        ensures
            r == self.spec_legacy_gas_price(),
    {
        self.max_fee
    }
}

/// The blob fee a blob transaction is sent with.
#[derive(Debug, Clone, Copy, PartialEq, Eq, Structural)]
pub struct BlobGasPriceResult {
    pub blob_gas_price: u128,
}

/// A relayed transaction. Times are Unix milliseconds.
#[derive(Debug, Clone)]
pub struct Transaction {
    pub id: TransactionId,
    pub relayer_id: RelayerId,
    pub to: EvmAddress,
    pub from: EvmAddress,
    pub value: Uint256,
    pub data: Vec<u8>,
    pub nonce: TransactionNonce,
    pub chain_id: ChainId,
    pub gas_limit: Option<GasLimit>,
    pub status: TransactionStatus,
    pub blobs: Option<Vec<Vec<u8>>>,
    pub known_transaction_hash: Option<TransactionHash>,
    pub queued_at: i64,
    pub expires_at: i64,
    pub sent_at: Option<i64>,
    pub confirmed_at: Option<i64>,
    pub sent_with_gas: Option<GasPriceResult>,
    pub sent_with_blob_gas: Option<BlobGasPriceResult>,
    pub mined_at: Option<i64>,
    pub mined_at_block_number: Option<BlockNumber>,
    pub speed: TransactionSpeed,
    pub sent_with_max_priority_fee_per_gas: Option<u128>,
    pub sent_with_max_fee_per_gas: Option<u128>,
    pub is_noop: bool,
    pub external_id: Option<String>,
    pub cancelled_by_transaction_id: Option<TransactionId>,
    /// The number of failed send attempts (kept in memory only).
    pub send_attempt_count: u32,
}

/// The mathematical content of a [`Transaction`].
pub struct TransactionView {
    pub id: TransactionId,
    pub relayer_id: RelayerId,
    pub to: EvmAddress,
    pub from: EvmAddress,
    pub value: nat,
    pub data: Seq<u8>,
    pub nonce: TransactionNonce,
    pub chain_id: ChainId,
    pub gas_limit: Option<GasLimit>,
    pub status: TransactionStatus,
    pub blobs: Option<Seq<Seq<u8>>>,
    pub known_transaction_hash: Option<TransactionHash>,
    pub queued_at: i64,
    pub expires_at: i64,
    pub sent_at: Option<i64>,
    pub confirmed_at: Option<i64>,
    pub sent_with_gas: Option<GasPriceResult>,
    pub sent_with_blob_gas: Option<BlobGasPriceResult>,
    pub mined_at: Option<i64>,
    pub mined_at_block_number: Option<BlockNumber>,
    pub speed: TransactionSpeed,
    pub sent_with_max_priority_fee_per_gas: Option<u128>,
    pub sent_with_max_fee_per_gas: Option<u128>,
    pub is_noop: bool,
    pub external_id: Option<Seq<char>>,
    pub cancelled_by_transaction_id: Option<TransactionId>,
    pub send_attempt_count: u32,
}

pub open spec fn blobs_view(blobs: Option<Vec<Vec<u8>>>) -> Option<Seq<Seq<u8>>> {
    match blobs {
        Some(b) => Some(b@.map_values(|x: Vec<u8>| x@)),
        None => None,
    }
}

pub open spec fn opt_string_view(s: Option<String>) -> Option<Seq<char>> {
    match s {
        Some(s) => Some(s@),
        None => None,
    }
}

impl View for Transaction {
    type V = TransactionView;

    open spec fn view(&self) -> TransactionView {
        TransactionView {
            id: self.id,
            relayer_id: self.relayer_id,
            to: self.to,
            from: self.from,
            value: self.value.value(),
            data: self.data@,
            nonce: self.nonce,
            chain_id: self.chain_id,
            gas_limit: self.gas_limit,
            status: self.status,
            blobs: blobs_view(self.blobs),
            known_transaction_hash: self.known_transaction_hash,
            queued_at: self.queued_at,
            expires_at: self.expires_at,
            sent_at: self.sent_at,
            confirmed_at: self.confirmed_at,
            sent_with_gas: self.sent_with_gas,
            sent_with_blob_gas: self.sent_with_blob_gas,
            mined_at: self.mined_at,
            mined_at_block_number: self.mined_at_block_number,
            speed: self.speed,
            sent_with_max_priority_fee_per_gas: self.sent_with_max_priority_fee_per_gas,
            sent_with_max_fee_per_gas: self.sent_with_max_fee_per_gas,
            is_noop: self.is_noop,
            external_id: opt_string_view(self.external_id),
            cancelled_by_transaction_id: self.cancelled_by_transaction_id,
            send_attempt_count: self.send_attempt_count,
        }
    }
}

/// A copy of a list of blobs.
pub fn copy_blobs(blobs: &Vec<Vec<u8>>) -> (r: Vec<Vec<u8>>)
    ensures
        r@.map_values(|x: Vec<u8>| x@) == blobs@.map_values(|x: Vec<u8>| x@),
{
    let mut out: Vec<Vec<u8>> = Vec::new();
    let mut i: usize = 0;
    while i < blobs.len()
        invariant
            i <= blobs.len(),
            out@.len() == i,
            forall|j: int| 0 <= j < i ==> #[trigger] out@[j]@ == blobs@[j]@,
        decreases blobs.len() - i,
    {
        let b = blobs[i].clone();
        out.push(b);
        i += 1;
    }
    assert(out@.map_values(|x: Vec<u8>| x@) =~= blobs@.map_values(|x: Vec<u8>| x@));
    out
}

pub fn copy_opt_blobs(blobs: &Option<Vec<Vec<u8>>>) -> (r: Option<Vec<Vec<u8>>>)
    ensures
        blobs_view(r) == blobs_view(*blobs),
{
    match blobs {
        Some(b) => Some(copy_blobs(b)),
        None => None,
    }
}

pub fn copy_opt_string(s: &Option<String>) -> (r: Option<String>)
    ensures
        opt_string_view(r) == opt_string_view(*s),
{
    match s {
        Some(s) => Some(s.clone()),
        None => None,
    }
}

/// Two conversion outcomes agree: the same transaction, or the same error,
/// where a sidecar error counts by its kind whatever its text.
pub open spec fn same_conversion(
    a: Result<alloy::consensus::TypedTransaction, TransactionConversionError>,
    b: Result<alloy::consensus::TypedTransaction, TransactionConversionError>,
) -> bool {
    match (a, b) {
        (Err(TransactionConversionError::BlobSidecarBuild(_)), Err(TransactionConversionError::BlobSidecarBuild(_))) => true,
        _ => a == b,
    }
}

impl Transaction {
    /// A copy of the transaction with the same content.
    pub fn duplicate(&self) -> (r: Transaction)
        ensures
            r@ == self@,
            r.value == self.value,
    {
        Transaction {
            id: self.id,
            relayer_id: self.relayer_id,
            to: self.to,
            from: self.from,
            value: self.value,
            data: self.data.clone(),
            nonce: self.nonce,
            chain_id: self.chain_id,
            gas_limit: self.gas_limit,
            status: self.status,
            blobs: copy_opt_blobs(&self.blobs),
            known_transaction_hash: self.known_transaction_hash,
            queued_at: self.queued_at,
            expires_at: self.expires_at,
            sent_at: self.sent_at,
            confirmed_at: self.confirmed_at,
            sent_with_gas: self.sent_with_gas,
            sent_with_blob_gas: self.sent_with_blob_gas,
            mined_at: self.mined_at,
            mined_at_block_number: self.mined_at_block_number,
            speed: self.speed,
            sent_with_max_priority_fee_per_gas: self.sent_with_max_priority_fee_per_gas,
            sent_with_max_fee_per_gas: self.sent_with_max_fee_per_gas,
            is_noop: self.is_noop,
            external_id: copy_opt_string(&self.external_id),
            cancelled_by_transaction_id: self.cancelled_by_transaction_id,
            send_attempt_count: self.send_attempt_count,
        }
    }

    /// Checks if this transaction has been previously sent to the network.
    pub fn has_been_sent_before(&self) -> (r: bool)
        ensures
            r == self.sent_at.is_some(),
    {
        self.sent_at.is_some()
    }

    /// The gas price a conversion uses: the override, else the one it was sent with.
    pub open spec fn resolved_gas_price(&self, override_gas_price: Option<&GasPriceResult>) -> Option<GasPriceResult> {
        match override_gas_price {
            Some(g) => Some(*g),
            None => self.sent_with_gas,
        }
    }

    /// The gas limit a conversion uses: the override, else the stored one.
    pub open spec fn resolved_gas_limit(&self, override_gas_limit: Option<GasLimit>) -> Option<GasLimit> {
        match override_gas_limit {
            Some(l) => Some(l),
            None => self.gas_limit,
        }
    }

    /// What converting to an EIP-1559 transaction gives.
    pub open spec fn spec_eip1559(
        &self,
        override_gas_price: Option<&GasPriceResult>,
        override_gas_limit: Option<GasLimit>,
    ) -> Result<alloy::consensus::TypedTransaction, TransactionConversionError> {
        match self.resolved_gas_price(override_gas_price) {
            None => Err(TransactionConversionError::NoGasPrice),
            Some(g) => match self.resolved_gas_limit(override_gas_limit) {
                None => Err(TransactionConversionError::NoGasLimit),
                Some(l) => Ok(eip1559_typed_transaction(
                    self.chain_id, self.nonce, l as u64, g.max_fee, g.max_priority_fee, self.to, self.value, self.data@,
                )),
            },
        }
    }

    /// What converting to a legacy transaction gives.
    pub open spec fn spec_legacy(
        &self,
        override_gas_price: Option<&GasPriceResult>,
        override_gas_limit: Option<GasLimit>,
    ) -> Result<alloy::consensus::TypedTransaction, TransactionConversionError> {
        match self.resolved_gas_price(override_gas_price) {
            None => Err(TransactionConversionError::NoGasPrice),
            Some(g) => match self.resolved_gas_limit(override_gas_limit) {
                None => Err(TransactionConversionError::NoGasLimit),
                Some(l) => Ok(legacy_typed_transaction(
                    self.chain_id, self.nonce, l as u64, g.spec_legacy_gas_price(), self.to, self.value, self.data@,
                )),
            },
        }
    }

    /// Converts this transaction to an EIP-1559 typed transaction.
    pub fn to_eip1559_typed_transaction(
        &self,
        override_gas_price: Option<&GasPriceResult>,
    ) -> (r: Result<alloy::consensus::TypedTransaction, TransactionConversionError>)
        ensures
            r == self.spec_eip1559(override_gas_price, None),
    {
        self.to_eip1559_typed_transaction_with_gas_limit(override_gas_price, None)
    }

    /// Converts this transaction to an EIP-1559 typed transaction, with an
    /// optional gas limit override.
    pub fn to_eip1559_typed_transaction_with_gas_limit(
        &self,
        override_gas_price: Option<&GasPriceResult>,
        override_gas_limit: Option<GasLimit>,
    ) -> (r: Result<alloy::consensus::TypedTransaction, TransactionConversionError>)
        ensures
            r == self.spec_eip1559(override_gas_price, override_gas_limit),
    {
        let gas_price_result = match override_gas_price {
            Some(gas_price) => *gas_price,
            None => match self.sent_with_gas {
                Some(g) => g,
                None => return Err(TransactionConversionError::NoGasPrice),
            },
        };
        let gas_limit = match override_gas_limit {
            Some(limit) => limit,
            None => match self.gas_limit {
                Some(l) => l,
                None => return Err(TransactionConversionError::NoGasLimit),
            },
        };
        Ok(build_eip1559_typed_transaction(
            self.chain_id,
            self.nonce,
            gas_limit as u64,
            gas_price_result.max_fee,
            gas_price_result.max_priority_fee,
            self.to,
            self.value,
            &self.data,
        ))
    }

    pub fn to_legacy_typed_transaction(
        &self,
        override_gas_price: Option<&GasPriceResult>,
    ) -> (r: Result<alloy::consensus::TypedTransaction, TransactionConversionError>)
        ensures
            r == self.spec_legacy(override_gas_price, None),
    {
        self.to_legacy_typed_transaction_with_gas_limit(override_gas_price, None)
    }

    pub fn to_legacy_typed_transaction_with_gas_limit(
        &self,
        override_gas_price: Option<&GasPriceResult>,
        override_gas_limit: Option<GasLimit>,
    ) -> (r: Result<alloy::consensus::TypedTransaction, TransactionConversionError>)
        ensures
            r == self.spec_legacy(override_gas_price, override_gas_limit),
    {
        let gas_price = match override_gas_price {
            Some(gas_price) => gas_price.legacy_gas_price(),
            None => match &self.sent_with_gas {
                Some(g) => g.legacy_gas_price(),
                None => return Err(TransactionConversionError::NoGasPrice),
            },
        };
        let gas_limit = match override_gas_limit {
            Some(limit) => limit,
            None => match self.gas_limit {
                Some(l) => l,
                None => return Err(TransactionConversionError::NoGasLimit),
            },
        };
        Ok(build_legacy_typed_transaction(
            self.chain_id,
            self.nonce,
            gas_limit as u64,
            gas_price,
            self.to,
            self.value,
            &self.data,
        ))
    }

    /// The blob gas price a conversion uses: the override, else the one it was sent with.
    pub open spec fn resolved_blob_gas_price(
        &self,
        override_blob_gas_price: Option<&BlobGasPriceResult>,
    ) -> Option<u128> {
        match override_blob_gas_price {
            Some(b) => Some(b.blob_gas_price),
            None => match self.sent_with_blob_gas {
                Some(b) => Some(b.blob_gas_price),
                None => None,
            },
        }
    }

    /// What converting to an EIP-4844 blob transaction gives. The checks come
    /// in this order: gas price, blob gas price, blobs, the sidecar, gas limit.
    /// A sidecar error is reported by its kind only.
    pub open spec fn spec_blob(
        &self,
        override_gas_price: Option<&GasPriceResult>,
        override_blob_gas_price: Option<&BlobGasPriceResult>,
        override_gas_limit: Option<GasLimit>,
    ) -> Result<alloy::consensus::TypedTransaction, TransactionConversionError> {
        match self.resolved_gas_price(override_gas_price) {
            None => Err(TransactionConversionError::NoGasPrice),
            Some(g) => match self.resolved_blob_gas_price(override_blob_gas_price) {
                None => Err(TransactionConversionError::NoBlobGasPrice),
                Some(blob_price) => match blobs_view(self.blobs) {
                    None => Err(TransactionConversionError::NoBlobs),
                    Some(blobs) => match blob_sidecar(blobs) {
                        None => Err(TransactionConversionError::BlobSidecarBuild(arbitrary())),
                        Some(sidecar) => match self.resolved_gas_limit(override_gas_limit) {
                            None => Err(TransactionConversionError::NoGasLimit),
                            Some(l) => Ok(eip4844_typed_transaction(
                                self.chain_id, self.nonce, l as u64, g.max_fee, g.max_priority_fee, self.to,
                                self.value, blob_price, self.data@, sidecar,
                            )),
                        },
                    },
                },
            },
        }
    }

    pub fn to_blob_typed_transaction(
        &self,
        override_gas_price: Option<&GasPriceResult>,
        override_blob_gas_price: Option<&BlobGasPriceResult>,
    ) -> (r: Result<alloy::consensus::TypedTransaction, TransactionConversionError>)
        ensures
            same_conversion(r, self.spec_blob(override_gas_price, override_blob_gas_price, None)),
    {
        self.to_blob_typed_transaction_with_gas_limit(override_gas_price, override_blob_gas_price, None)
    }

    /// Converts this transaction to an EIP-4844 transaction with its blob sidecar.
    pub fn to_blob_typed_transaction_with_gas_limit(
        &self,
        override_gas_price: Option<&GasPriceResult>,
        override_blob_gas_price: Option<&BlobGasPriceResult>,
        override_gas_limit: Option<GasLimit>,
    ) -> (r: Result<alloy::consensus::TypedTransaction, TransactionConversionError>)
        ensures
            same_conversion(r, self.spec_blob(override_gas_price, override_blob_gas_price, override_gas_limit)),
    {
        let gas_price_result = match override_gas_price {
            Some(gas_price) => *gas_price,
            None => match self.sent_with_gas {
                Some(g) => g,
                None => return Err(TransactionConversionError::NoGasPrice),
            },
        };
        let blob_gas_price = match override_blob_gas_price {
            Some(blob_price) => blob_price.blob_gas_price,
            None => match self.sent_with_blob_gas {
                Some(b) => b.blob_gas_price,
                None => return Err(TransactionConversionError::NoBlobGasPrice),
            },
        };
        let blobs = match &self.blobs {
            Some(b) => b,
            None => return Err(TransactionConversionError::NoBlobs),
        };
        let sidecar = match build_blob_sidecar(blobs) {
            Ok(s) => s,
            Err(e) => return Err(TransactionConversionError::BlobSidecarBuild(e)),
        };
        let gas_limit = match override_gas_limit {
            Some(limit) => limit,
            None => match self.gas_limit {
                Some(l) => l,
                None => return Err(TransactionConversionError::NoGasLimit),
            },
        };
        Ok(build_eip4844_typed_transaction(
            self.chain_id,
            self.nonce,
            gas_limit as u64,
            gas_price_result.max_fee,
            gas_price_result.max_priority_fee,
            self.to,
            self.value,
            blob_gas_price,
            &self.data,
            sidecar,
        ))
    }

    /// Checks if this is a blob transaction (EIP-4844).
    pub fn is_blob_transaction(&self) -> (r: bool)
        ensures
            r == self.blobs.is_some(),
    {
        self.blobs.is_some()
    }
}


/// A transaction as the database stores it, its columns read as plain
/// values; the stored fees are those that parsed.
pub struct TransactionRow {
    pub id: TransactionId,
    pub relayer_id: RelayerId,
    pub to: EvmAddress,
    pub from: EvmAddress,
    pub value: Uint256,
    pub chain_id: ChainId,
    pub data: Vec<u8>,
    pub nonce: TransactionNonce,
    pub gas_limit: Option<GasLimit>,
    pub status: TransactionStatus,
    pub blobs: Option<Vec<Vec<u8>>>,
    pub hash: Option<TransactionHash>,
    pub queued_at: i64,
    pub expires_at: i64,
    pub sent_at: Option<i64>,
    pub confirmed_at: Option<i64>,
    pub sent_with_gas: Option<GasPriceResult>,
    pub sent_with_blob_gas: Option<BlobGasPriceResult>,
    pub mined_at: Option<i64>,
    pub block_number: Option<BlockNumber>,
    pub speed: TransactionSpeed,
    pub sent_max_priority_fee_per_gas: Option<u128>,
    pub sent_max_fee_per_gas: Option<u128>,
    pub external_id: Option<String>,
    pub cancelled_by_transaction_id: Option<TransactionId>,
}

/// Rebuilds a transaction from its stored row: a noop exactly when it goes
/// to its own sender; no failed send attempts counted (they are not stored).
pub fn build_transaction_from_transaction_view(row: TransactionRow) -> (r: Transaction)
    ensures
        r.id == row.id && r.relayer_id == row.relayer_id && r.to == row.to && r.from == row.from,
        r.value == row.value && r.chain_id == row.chain_id && r.data == row.data && r.nonce == row.nonce,
        r.gas_limit == row.gas_limit && r.status == row.status && r.blobs == row.blobs,
        r.known_transaction_hash == row.hash && r.queued_at == row.queued_at && r.expires_at == row.expires_at,
        r.sent_at == row.sent_at && r.confirmed_at == row.confirmed_at && r.sent_with_gas == row.sent_with_gas,
        r.sent_with_blob_gas == row.sent_with_blob_gas && r.mined_at == row.mined_at,
        r.mined_at_block_number == row.block_number && r.speed == row.speed,
        r.sent_with_max_priority_fee_per_gas == row.sent_max_priority_fee_per_gas,
        r.sent_with_max_fee_per_gas == row.sent_max_fee_per_gas,
        r.external_id == row.external_id && r.cancelled_by_transaction_id == row.cancelled_by_transaction_id,
        r.is_noop == (row.to == row.from),
        r.send_attempt_count == 0,
{
    let is_noop = row.to.same_as(&row.from);
    Transaction {
        id: row.id,
        relayer_id: row.relayer_id,
        to: row.to,
        from: row.from,
        value: row.value,
        chain_id: row.chain_id,
        data: row.data,
        nonce: row.nonce,
        gas_limit: row.gas_limit,
        status: row.status,
        blobs: row.blobs,
        known_transaction_hash: row.hash,
        queued_at: row.queued_at,
        expires_at: row.expires_at,
        sent_at: row.sent_at,
        confirmed_at: row.confirmed_at,
        sent_with_gas: row.sent_with_gas,
        sent_with_blob_gas: row.sent_with_blob_gas,
        mined_at: row.mined_at,
        mined_at_block_number: row.block_number,
        speed: row.speed,
        sent_with_max_priority_fee_per_gas: row.sent_max_priority_fee_per_gas,
        sent_with_max_fee_per_gas: row.sent_max_fee_per_gas,
        is_noop,
        external_id: row.external_id,
        cancelled_by_transaction_id: row.cancelled_by_transaction_id,
        send_attempt_count: 0,
    }
}

} // verus!
