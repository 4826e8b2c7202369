use btc_ckbtc_wallet::address::derive_address;
use btc_ckbtc_wallet::script::{
    apply_signature, compute_sighash, lock_script, LEAF_VERSION, SIGHASH_ALL,
};
use btc_ckbtc_wallet::tx::{build_transaction, Transaction};
use btc_ckbtc_wallet::types::{BitcoinNetwork, SpendPolicy, WalletError};
use btc_ckbtc_wallet::utxo::{Outpoint, Utxo};

fn utxo(value: u64, vout: u32) -> Utxo {
    Utxo {
        outpoint: Outpoint {
            txid: vec![0xee; 32],
            vout,
        },
        value,
        height: 9,
    }
}

fn unsigned_tx(inputs: Vec<Utxo>, amount: u64) -> Transaction {
    let dst = derive_address(
        SpendPolicy::LegacyKeyHash,
        BitcoinNetwork::Testnet,
        &vec![2u8; 33],
    );
    let change = derive_address(
        SpendPolicy::LegacyKeyHash,
        BitcoinNetwork::Testnet,
        &vec![3u8; 33],
    );
    build_transaction(inputs, &dst, &change, amount, 200, BitcoinNetwork::Testnet).unwrap()
}

/// The structural check of the validation model, over raw bytes: the
/// unlocking script pushes a flagged signature and a key, and the lock is
/// the classic five-part script committing to the same key.
fn legacy_unlocks(script_sig: &[u8], lock: &[u8]) -> bool {
    if script_sig.is_empty() {
        return false;
    }
    let sig_len = script_sig[0] as usize;
    if script_sig.len() < 1 + sig_len + 1 {
        return false;
    }
    let flagged_sig = &script_sig[1..1 + sig_len];
    if flagged_sig.last() != Some(&SIGHASH_ALL) {
        return false;
    }
    let key_len = script_sig[1 + sig_len] as usize;
    if script_sig.len() != 1 + sig_len + 1 + key_len {
        return false;
    }
    let key = &script_sig[2 + sig_len..];
    let mut expected_lock = vec![0x76, 0xa9, key_len as u8];
    expected_lock.extend_from_slice(key);
    expected_lock.push(0x88);
    expected_lock.push(0xac);
    lock == expected_lock.as_slice()
}

#[test]
fn digest_is_deterministic() {
    let tx = unsigned_tx(vec![utxo(5_000, 0)], 3_000);
    let key = vec![2u8; 33];
    let first = compute_sighash(&tx, 0, SpendPolicy::LegacyKeyHash, &key);
    let second = compute_sighash(&tx, 0, SpendPolicy::LegacyKeyHash, &key);
    assert_eq!(first, second);
    assert!(!first.is_empty());
}

#[test]
fn digest_binds_the_input_position() {
    let tx = unsigned_tx(vec![utxo(5_000, 0), utxo(4_000, 1)], 3_000);
    let key = vec![7u8; 32];
    let first = compute_sighash(&tx, 0, SpendPolicy::TaprootKeyPath, &key);
    let second = compute_sighash(&tx, 1, SpendPolicy::TaprootKeyPath, &key);
    assert_ne!(first, second);
}

#[test]
fn digest_binds_the_policy() {
    let tx = unsigned_tx(vec![utxo(5_000, 0)], 3_000);
    let key = vec![7u8; 32];
    let keypath = compute_sighash(&tx, 0, SpendPolicy::TaprootKeyPath, &key);
    let scriptpath = compute_sighash(&tx, 0, SpendPolicy::TaprootScriptPath, &key);
    assert_ne!(keypath, scriptpath);
}

#[test]
fn two_signatures_both_unlock_the_same_lock() {
    // the signing service is free to return different bytes for the same
    // digest; both assemblies must satisfy the original locking script
    let key = vec![2u8; 33];
    let sig_one = vec![0x30; 70];
    let sig_two = vec![0x31; 70];
    let lock = lock_script(SpendPolicy::LegacyKeyHash, &key);

    let mut tx_one = unsigned_tx(vec![utxo(5_000, 0)], 3_000);
    let mut tx_two = unsigned_tx(vec![utxo(5_000, 0)], 3_000);
    apply_signature(&mut tx_one, 0, SpendPolicy::LegacyKeyHash, &sig_one, &key).unwrap();
    apply_signature(&mut tx_two, 0, SpendPolicy::LegacyKeyHash, &sig_two, &key).unwrap();

    assert!(legacy_unlocks(&tx_one.inputs[0].script_sig, &lock));
    assert!(legacy_unlocks(&tx_two.inputs[0].script_sig, &lock));
    assert_ne!(tx_one.inputs[0].script_sig, tx_two.inputs[0].script_sig);
}

#[test]
fn key_path_witness_is_the_bare_signature() {
    let key = vec![7u8; 32];
    let sig = vec![0x40; 64];
    let mut tx = unsigned_tx(vec![utxo(5_000, 0)], 3_000);
    apply_signature(&mut tx, 0, SpendPolicy::TaprootKeyPath, &sig, &key).unwrap();
    assert!(tx.inputs[0].script_sig.is_empty());
    assert_eq!(tx.inputs[0].witness, vec![sig]);
}

#[test]
fn script_path_witness_reveals_script_and_control_block() {
    let key = vec![7u8; 32];
    let sig = vec![0x41; 64];
    let mut tx = unsigned_tx(vec![utxo(5_000, 0)], 3_000);
    apply_signature(&mut tx, 0, SpendPolicy::TaprootScriptPath, &sig, &key).unwrap();
    let witness = &tx.inputs[0].witness;
    assert_eq!(witness.len(), 3);
    assert_eq!(witness[0], sig);
    // the committed leaf script: push the key, then checksig
    let mut leaf = vec![32u8];
    leaf.extend_from_slice(&key);
    leaf.push(0xac);
    assert_eq!(witness[1], leaf);
    // the control block: leaf version, then the internal key
    let mut control = vec![LEAF_VERSION];
    control.extend_from_slice(&key);
    assert_eq!(witness[2], control);
}

#[test]
fn malformed_signature_is_a_signing_service_error() {
    let key = vec![2u8; 33];
    let mut tx = unsigned_tx(vec![utxo(5_000, 0)], 3_000);
    let result = apply_signature(&mut tx, 0, SpendPolicy::LegacyKeyHash, &vec![1, 2, 3], &key);
    assert!(matches!(result, Err(WalletError::SigningServiceError)));
    // a signing failure aborts the send with the transaction untouched
    assert!(tx.inputs[0].script_sig.is_empty());
    assert!(tx.inputs[0].witness.is_empty());

    let schnorr_key = vec![7u8; 32];
    let result = apply_signature(
        &mut tx,
        0,
        SpendPolicy::TaprootKeyPath,
        &vec![0x40; 63],
        &schnorr_key,
    );
    assert!(matches!(result, Err(WalletError::SigningServiceError)));
}

#[test]
fn unparseable_key_is_an_invalid_public_key() {
    let mut tx = unsigned_tx(vec![utxo(5_000, 0)], 3_000);
    // right length, bad parity byte
    let bad_parity = vec![9u8; 33];
    let result = apply_signature(
        &mut tx,
        0,
        SpendPolicy::LegacyKeyHash,
        &vec![0x30; 70],
        &bad_parity,
    );
    assert!(matches!(result, Err(WalletError::InvalidPublicKey)));

    let short_key = vec![7u8; 31];
    let result = apply_signature(
        &mut tx,
        0,
        SpendPolicy::TaprootKeyPath,
        &vec![0x40; 64],
        &short_key,
    );
    assert!(matches!(result, Err(WalletError::InvalidPublicKey)));
}

#[test]
fn signing_touches_only_its_input() {
    let key = vec![2u8; 33];
    let sig = vec![0x30; 70];
    let mut tx = unsigned_tx(vec![utxo(5_000, 0), utxo(4_000, 1)], 3_000);
    let outputs_before: Vec<(u64, Vec<u8>)> = tx
        .outputs
        .iter()
        .map(|o| (o.value, o.script_pubkey.clone()))
        .collect();
    apply_signature(&mut tx, 0, SpendPolicy::LegacyKeyHash, &sig, &key).unwrap();
    assert!(!tx.inputs[0].script_sig.is_empty());
    assert!(tx.inputs[1].script_sig.is_empty());
    let outputs_after: Vec<(u64, Vec<u8>)> = tx
        .outputs
        .iter()
        .map(|o| (o.value, o.script_pubkey.clone()))
        .collect();
    assert_eq!(outputs_before, outputs_after);
}
