use pq_stark_bench::tx_format::field_sizes;
use pq_stark_bench::tx_format::signing_preimage;
use pq_stark_bench::tx_format::tx_size;
use pq_stark_bench::tx_format::tx_sizes;
use pq_stark_bench::tx_format::TxModel;
use pq_stark_bench::tx_format::TxSize;
use pq_stark_bench::tx_format::FIXED_FIELD_BYTES;

#[test]
fn fixed_fields_are_89_bytes() {
    // 1 + 8 + 32 + 8 + 8 + 32
    assert_eq!(FIXED_FIELD_BYTES, 89);
}

#[test]
fn ed25519_shaped_sizes() {
    // Ed25519: 32-byte public key, 64-byte signature.
    let sizes = tx_sizes(32, 64);
    let by = |m: TxModel| -> TxSize { *sizes.iter().find(|s| s.model == m).unwrap() };

    assert_eq!(by(TxModel::PubkeyInTx).on_chain_bytes, 89 + 32 + 64);
    assert_eq!(by(TxModel::PubkeyInTx).witness_bytes, 0);

    assert_eq!(by(TxModel::AddressOnly).on_chain_bytes, 89 + 32 + 64);
    assert_eq!(by(TxModel::AddressOnly).witness_bytes, 32);

    assert_eq!(by(TxModel::RollupWitnessOnly).on_chain_bytes, 89 + 32);
    assert_eq!(by(TxModel::RollupWitnessOnly).witness_bytes, 32 + 64);
}

#[test]
fn rollup_on_chain_size_is_scheme_independent() {
    let ed25519 = tx_size(TxModel::RollupWitnessOnly, 32, 64);
    let ml_dsa_44 = tx_size(TxModel::RollupWitnessOnly, 1312, 2420);
    let slh_dsa_128f = tx_size(TxModel::RollupWitnessOnly, 32, 17088);

    assert_eq!(ed25519.on_chain_bytes, ml_dsa_44.on_chain_bytes);
    assert_eq!(ed25519.on_chain_bytes, slh_dsa_128f.on_chain_bytes);

    // But the prover still has to consume the bytes.
    assert!(slh_dsa_128f.total_bytes > ed25519.total_bytes);
}

#[test]
fn totals_are_consistent() {
    for s in tx_sizes(1312, 2420) {
        assert_eq!(s.total_bytes, s.on_chain_bytes + s.witness_bytes);
    }
}

#[test]
fn preimage_length_matches_fixed_fields_plus_pubkey() {
    let pk = [7u8; 32];
    let p = signing_preimage(1, 42, &pk, &[9u8; 32], 1000, 10, &[0u8; 32]);
    assert_eq!(p.len(), FIXED_FIELD_BYTES + pk.len());
}

#[test]
fn models_are_listed_in_reporting_order_with_their_names() {
    let names: Vec<&str> = TxModel::ALL.iter().map(|m| m.as_str()).collect();
    assert_eq!(names, vec!["pubkey_in_tx", "address_only", "rollup_witness_only"]);
    let sizes = tx_sizes(1312, 2420);
    for (s, m) in sizes.iter().zip(TxModel::ALL.iter()) {
        assert_eq!(s.model, *m);
    }
}

#[test]
fn address_only_moves_the_key_to_the_witness() {
    let s = tx_size(TxModel::AddressOnly, 1312, 2420);
    assert_eq!(s.on_chain_bytes, FIXED_FIELD_BYTES + field_sizes::KEY_HASH_ADDRESS + 2420);
    assert_eq!(s.witness_bytes, 1312);
    assert_eq!(s.total_bytes, 89 + 32 + 1312 + 2420);
    let p = tx_size(TxModel::PubkeyInTx, 1312, 2420);
    assert_eq!(p.total_bytes, 89 + 1312 + 2420);
}

#[test]
fn preimage_is_fixed_width_little_endian() {
    let pk = [0x11u8, 0x22, 0x33];
    let p = signing_preimage(
        7,
        0x0102_0304_0506_0708,
        &pk,
        &[0xAAu8; 32],
        0x10,
        0x0200,
        &[0x55u8; 32],
    );
    let mut expected = vec![7u8];
    expected.extend_from_slice(&[8, 7, 6, 5, 4, 3, 2, 1]);
    expected.extend_from_slice(&pk);
    expected.extend_from_slice(&[0xAA; 32]);
    expected.extend_from_slice(&[0x10, 0, 0, 0, 0, 0, 0, 0]);
    expected.extend_from_slice(&[0, 2, 0, 0, 0, 0, 0, 0]);
    expected.extend_from_slice(&[0x55; 32]);
    assert_eq!(p, expected);
}
