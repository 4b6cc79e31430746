//! Canonical transaction byte accounting.
//!
//! Answers "how many bytes does a transaction occupy under publication model
//! X", given the signature and public key sizes of a scheme, and builds the
//! canonical signing preimage that every scheme signs.
use vstd::prelude::*;
use vstd::bytes::spec_u64_to_le_bytes;
use vstd::bytes::u64_to_le_bytes;

pub mod field_sizes;

verus! {

/// Bytes occupied by the scheme-independent fields common to every model:
/// version + nonce + to_address + amount + fee + payload_hash.
pub const FIXED_FIELD_BYTES: usize = field_sizes::VERSION + field_sizes::NONCE + field_sizes::TO_ADDRESS
    + field_sizes::AMOUNT + field_sizes::FEE + field_sizes::PAYLOAD_HASH;

/// How a transaction is encoded for on-chain publication. The models differ
/// only in what is published on-chain, not in what is signed.
#[derive(Debug, Clone, Copy, PartialEq, Eq, Structural)]
pub enum TxModel {
    /// The full public key travels inside the transaction.
    PubkeyInTx,
    /// A 32-byte key-hash address travels on-chain; the public key is
    /// revealed in witness data.
    AddressOnly,
    /// Validity-proof settlement: neither the signature nor the public key is
    /// ever published on-chain.
    RollupWitnessOnly,
}

/// The three models, in the order they are reported.
pub open spec fn all_models() -> Seq<TxModel> {
    seq![TxModel::PubkeyInTx, TxModel::AddressOnly, TxModel::RollupWitnessOnly]
}

/// The snake_case name of a model, as it appears in results files.
pub open spec fn model_name(model: TxModel) -> Seq<char> {
    match model {
        TxModel::PubkeyInTx => "pubkey_in_tx"@,
        TxModel::AddressOnly => "address_only"@,
        TxModel::RollupWitnessOnly => "rollup_witness_only"@,
    }
}

impl TxModel {
    /// Every model, in reporting order.
    pub const ALL: [TxModel; 3] = [TxModel::PubkeyInTx, TxModel::AddressOnly, TxModel::RollupWitnessOnly];

    /// The snake_case name of the model.
    pub fn as_str(&self) -> (r: &'static str)
        ensures
            r@ == model_name(*self),
    {
        match self {
            TxModel::PubkeyInTx => "pubkey_in_tx",
            TxModel::AddressOnly => "address_only",
            TxModel::RollupWitnessOnly => "rollup_witness_only",
        }
    }
}

/// Byte accounting for one transaction under one model.
#[derive(Debug, Clone, Copy, PartialEq, Eq, Structural)]
pub struct TxSize {
    pub model: TxModel,
    /// Bytes that must be published to the settlement layer per transaction.
    pub on_chain_bytes: usize,
    /// Bytes that exist but need not be published (witness / off-chain data).
    pub witness_bytes: usize,
    /// on_chain_bytes + witness_bytes. The total the prover must handle.
    pub total_bytes: usize,
}

/// Bytes published on-chain per transaction under `model`.
pub open spec fn on_chain_bytes(model: TxModel, pubkey_bytes: int, sig_bytes: int) -> int {
    match model {
        TxModel::PubkeyInTx => FIXED_FIELD_BYTES + pubkey_bytes + sig_bytes,
        TxModel::AddressOnly => FIXED_FIELD_BYTES + field_sizes::KEY_HASH_ADDRESS + sig_bytes,
        TxModel::RollupWitnessOnly => FIXED_FIELD_BYTES + field_sizes::KEY_HASH_ADDRESS,
    }
}

/// Bytes held as witness data per transaction under `model`.
pub open spec fn witness_bytes(model: TxModel, pubkey_bytes: int, sig_bytes: int) -> int {
    match model {
        TxModel::PubkeyInTx => 0,
        TxModel::AddressOnly => pubkey_bytes,
        TxModel::RollupWitnessOnly => pubkey_bytes + sig_bytes,
    }
}

/// The accounting `tx_size` reports.
pub open spec fn is_tx_size_of(r: TxSize, model: TxModel, pubkey_bytes: int, sig_bytes: int) -> bool {
    &&& r.model == model
    &&& r.on_chain_bytes == on_chain_bytes(model, pubkey_bytes, sig_bytes)
    &&& r.witness_bytes == witness_bytes(model, pubkey_bytes, sig_bytes)
    &&& r.total_bytes == r.on_chain_bytes + r.witness_bytes
}

/// The sizes fit in `usize` under every model.
pub open spec fn sizes_fit(pubkey_bytes: int, sig_bytes: int) -> bool {
    FIXED_FIELD_BYTES + field_sizes::KEY_HASH_ADDRESS + pubkey_bytes + sig_bytes <= usize::MAX
}

/// Per-transaction byte accounting under a single model.
pub fn tx_size(model: TxModel, pubkey_bytes: usize, sig_bytes: usize) -> (r: TxSize)
    requires
        sizes_fit(pubkey_bytes as int, sig_bytes as int),
    ensures
        is_tx_size_of(r, model, pubkey_bytes as int, sig_bytes as int),
{
    let (on_chain_bytes, witness_bytes) = match model {
        TxModel::PubkeyInTx => (FIXED_FIELD_BYTES + pubkey_bytes + sig_bytes, 0),
        TxModel::AddressOnly => (
            FIXED_FIELD_BYTES + field_sizes::KEY_HASH_ADDRESS + sig_bytes,
            pubkey_bytes,
        ),
        TxModel::RollupWitnessOnly => (
            FIXED_FIELD_BYTES + field_sizes::KEY_HASH_ADDRESS,
            pubkey_bytes + sig_bytes,
        ),
    };
    TxSize { model, on_chain_bytes, witness_bytes, total_bytes: on_chain_bytes + witness_bytes }
}

/// Per-transaction byte accounting for a scheme with the given key and
/// signature sizes, under every model, in `TxModel::ALL` order.
pub fn tx_sizes(pubkey_bytes: usize, sig_bytes: usize) -> (r: Vec<TxSize>)
    requires
        sizes_fit(pubkey_bytes as int, sig_bytes as int),
    ensures
        r.len() == 3,
        forall|i: int| 0 <= i < 3 ==> is_tx_size_of(#[trigger] r[i], all_models()[i], pubkey_bytes as int, sig_bytes as int),
{
    let mut r: Vec<TxSize> = Vec::new();
    r.push(tx_size(TxModel::PubkeyInTx, pubkey_bytes, sig_bytes));
    r.push(tx_size(TxModel::AddressOnly, pubkey_bytes, sig_bytes));
    r.push(tx_size(TxModel::RollupWitnessOnly, pubkey_bytes, sig_bytes));
    r
}

/// The canonical signing preimage: every field except the signature, in
/// order, integers fixed-width little-endian.
pub open spec fn preimage_bytes(
    version: u8,
    nonce: u64,
    from_pubkey: Seq<u8>,
    to_address: Seq<u8>,
    amount: u64,
    fee: u64,
    payload_hash: Seq<u8>,
) -> Seq<u8> {
    seq![version] + spec_u64_to_le_bytes(nonce) + from_pubkey + to_address + spec_u64_to_le_bytes(amount)
        + spec_u64_to_le_bytes(fee) + payload_hash
}

/// The canonical signing preimage: every field except the signature itself.
/// The same bytes are signed under every publication model.
pub fn signing_preimage(
    version: u8,
    nonce: u64,
    from_pubkey: &[u8],
    to_address: &[u8; 32],
    amount: u64,
    fee: u64,
    payload_hash: &[u8; 32],
) -> (r: Vec<u8>)
    requires
        FIXED_FIELD_BYTES + from_pubkey@.len() <= usize::MAX,
    ensures
        r@ == preimage_bytes(version, nonce, from_pubkey@, to_address@, amount, fee, payload_hash@),
        r@.len() == FIXED_FIELD_BYTES + from_pubkey@.len(),
{
    proof {
        vstd::bytes::lemma_auto_spec_u64_to_from_le_bytes();
    }
    let mut buf: Vec<u8> = Vec::with_capacity(FIXED_FIELD_BYTES + from_pubkey.len());
    buf.push(version);
    let nonce_le = u64_to_le_bytes(nonce);
    buf.extend_from_slice(nonce_le.as_slice());
    buf.extend_from_slice(from_pubkey);
    buf.extend_from_slice(to_address.as_slice());
    let amount_le = u64_to_le_bytes(amount);
    buf.extend_from_slice(amount_le.as_slice());
    let fee_le = u64_to_le_bytes(fee);
    buf.extend_from_slice(fee_le.as_slice());
    buf.extend_from_slice(payload_hash.as_slice());
    assert(buf@ =~= preimage_bytes(version, nonce, from_pubkey@, to_address@, amount, fee, payload_hash@));
    buf
}

/// Under validity-proof settlement the on-chain footprint of a transaction
/// does not depend on the signature scheme: it is the same for any key and
/// signature sizes.
pub proof fn lemma_rollup_on_chain_is_scheme_independent(pk1: int, sig1: int, pk2: int, sig2: int)
    ensures
        on_chain_bytes(TxModel::RollupWitnessOnly, pk1, sig1) == on_chain_bytes(TxModel::RollupWitnessOnly, pk2, sig2),
        on_chain_bytes(TxModel::RollupWitnessOnly, pk1, sig1) == FIXED_FIELD_BYTES + field_sizes::KEY_HASH_ADDRESS,
{
}

/// Every model accounts for the whole public key and signature, on-chain or
/// as witness: the prover still consumes every byte.
pub proof fn lemma_every_model_accounts_for_key_and_signature(model: TxModel, pk: int, sig: int)
    ensures
        on_chain_bytes(model, pk, sig) + witness_bytes(model, pk, sig) == FIXED_FIELD_BYTES + pk + sig
            + (if model == TxModel::PubkeyInTx { 0int } else { field_sizes::KEY_HASH_ADDRESS as int }),
{
}

/// The preimage encoding is unambiguous: for public keys of one length, equal
/// preimages come from equal fields.
pub proof fn lemma_preimage_is_unambiguous(
    version1: u8, nonce1: u64, pk1: Seq<u8>, to1: Seq<u8>, amount1: u64, fee1: u64, payload1: Seq<u8>,
    version2: u8, nonce2: u64, pk2: Seq<u8>, to2: Seq<u8>, amount2: u64, fee2: u64, payload2: Seq<u8>,
)
    requires
        pk1.len() == pk2.len(),
        to1.len() == 32 && to2.len() == 32,
        payload1.len() == 32 && payload2.len() == 32,
        preimage_bytes(version1, nonce1, pk1, to1, amount1, fee1, payload1)
            == preimage_bytes(version2, nonce2, pk2, to2, amount2, fee2, payload2),
    ensures
        version1 == version2 && nonce1 == nonce2 && pk1 == pk2 && to1 == to2,
        amount1 == amount2 && fee1 == fee2 && payload1 == payload2,
{
    vstd::bytes::lemma_auto_spec_u64_to_from_le_bytes();
    let b = preimage_bytes(version1, nonce1, pk1, to1, amount1, fee1, payload1);
    let n = pk1.len() as int;
    let le_n1 = spec_u64_to_le_bytes(nonce1);
    let le_n2 = spec_u64_to_le_bytes(nonce2);
    let le_a1 = spec_u64_to_le_bytes(amount1);
    let le_a2 = spec_u64_to_le_bytes(amount2);
    let le_f1 = spec_u64_to_le_bytes(fee1);
    let le_f2 = spec_u64_to_le_bytes(fee2);
    let b1 = seq![version1] + le_n1 + pk1 + to1 + le_a1 + le_f1 + payload1;
    let b2 = seq![version2] + le_n2 + pk2 + to2 + le_a2 + le_f2 + payload2;
    assert(b1 == b2);
    assert(version1 == b1[0] && version2 == b2[0]);
    assert(le_n1 =~= b1.subrange(1, 9));
    assert(le_n2 =~= b2.subrange(1, 9));
    assert(pk1 =~= b1.subrange(9, 9 + n));
    assert(pk2 =~= b2.subrange(9, 9 + n));
    assert(to1 =~= b1.subrange(9 + n, 41 + n));
    assert(to2 =~= b2.subrange(9 + n, 41 + n));
    assert(le_a1 =~= b1.subrange(41 + n, 49 + n));
    assert(le_a2 =~= b2.subrange(41 + n, 49 + n));
    assert(le_f1 =~= b1.subrange(49 + n, 57 + n));
    assert(le_f2 =~= b2.subrange(49 + n, 57 + n));
    assert(payload1 =~= b1.subrange(57 + n, 89 + n));
    assert(payload2 =~= b2.subrange(57 + n, 89 + n));
    assert(vstd::bytes::spec_u64_from_le_bytes(le_n1) == vstd::bytes::spec_u64_from_le_bytes(le_n2));
    assert(vstd::bytes::spec_u64_from_le_bytes(le_a1) == vstd::bytes::spec_u64_from_le_bytes(le_a2));
    assert(vstd::bytes::spec_u64_from_le_bytes(le_f1) == vstd::bytes::spec_u64_from_le_bytes(le_f2));
}

} // verus!
