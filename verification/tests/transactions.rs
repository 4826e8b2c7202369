use btc_ckbtc_wallet::address::derive_address;
use btc_ckbtc_wallet::fee::estimate_fee;
use btc_ckbtc_wallet::spend::plan_spend;
use btc_ckbtc_wallet::tx::{
    build_transaction, serialize_transaction, SEQUENCE_FINAL, TX_LOCK_TIME, TX_VERSION,
};
use btc_ckbtc_wallet::types::{BitcoinNetwork, SpendPolicy, WalletError};
use btc_ckbtc_wallet::utxo::{Outpoint, Utxo};

fn utxo(value: u64, vout: u32) -> Utxo {
    Utxo {
        outpoint: Outpoint {
            txid: vec![0xcd; 32],
            vout,
        },
        value,
        height: 7,
    }
}

fn testnet_addr(seed: u8) -> Vec<u8> {
    derive_address(
        SpendPolicy::LegacyKeyHash,
        BitcoinNetwork::Testnet,
        &vec![seed; 33],
    )
}

#[test]
fn value_equation_holds_exactly() {
    let dst = testnet_addr(2);
    let change = testnet_addr(3);
    let tx = build_transaction(
        vec![utxo(10_000, 0), utxo(2_000, 1)],
        &dst,
        &change,
        9_000,
        500,
        BitcoinNetwork::Testnet,
    )
    .unwrap();

    let in_sum: u64 = tx.inputs.iter().map(|i| i.value).sum();
    let out_sum: u64 = tx.outputs.iter().map(|o| o.value).sum();
    assert_eq!(in_sum, out_sum + 500);

    assert_eq!(tx.version, TX_VERSION);
    assert_eq!(tx.lock_time, TX_LOCK_TIME);
    assert_eq!(tx.inputs.len(), 2);
    assert!(tx
        .inputs
        .iter()
        .all(|i| i.sequence == SEQUENCE_FINAL && i.script_sig.is_empty() && i.witness.is_empty()));
    assert_eq!(tx.outputs.len(), 2);
    assert_eq!(tx.outputs[0].value, 9_000);
    assert_eq!(tx.outputs[0].script_pubkey, dst);
    assert_eq!(tx.outputs[1].value, 2_500);
    assert_eq!(tx.outputs[1].script_pubkey, change);
}

#[test]
fn wrong_network_destination_is_rejected() {
    let dst = derive_address(
        SpendPolicy::LegacyKeyHash,
        BitcoinNetwork::Mainnet,
        &vec![2u8; 33],
    );
    let change = testnet_addr(3);
    let result = build_transaction(
        vec![utxo(10_000, 0)],
        &dst,
        &change,
        1_000,
        100,
        BitcoinNetwork::Testnet,
    );
    assert!(matches!(result, Err(WalletError::InvalidAddress)));
}

#[test]
fn wrong_network_change_address_is_rejected() {
    let dst = testnet_addr(2);
    let mainnet_change = derive_address(
        SpendPolicy::LegacyKeyHash,
        BitcoinNetwork::Mainnet,
        &vec![3u8; 33],
    );
    let result = build_transaction(
        vec![utxo(10_000, 0)],
        &dst,
        &mainnet_change,
        1_000,
        100,
        BitcoinNetwork::Testnet,
    );
    assert!(matches!(result, Err(WalletError::InvalidAddress)));
}

#[test]
fn unparseable_destination_is_rejected() {
    let dst = b"not an address".to_vec();
    let change = testnet_addr(3);
    let result = build_transaction(
        vec![utxo(10_000, 0)],
        &dst,
        &change,
        1_000,
        100,
        BitcoinNetwork::Testnet,
    );
    assert!(matches!(result, Err(WalletError::InvalidAddress)));
}

#[test]
fn exact_spend_drops_the_change_output() {
    let dst = testnet_addr(2);
    let change = testnet_addr(3);
    let tx = build_transaction(
        vec![utxo(1_100, 0)],
        &dst,
        &change,
        1_000,
        100,
        BitcoinNetwork::Testnet,
    )
    .unwrap();
    assert_eq!(tx.outputs.len(), 1);
    let in_sum: u64 = tx.inputs.iter().map(|i| i.value).sum();
    let out_sum: u64 = tx.outputs.iter().map(|o| o.value).sum();
    assert_eq!(in_sum, out_sum + 100);
}

#[test]
fn builder_reports_insufficient_funds() {
    let dst = testnet_addr(2);
    let change = testnet_addr(3);
    let result = build_transaction(
        vec![utxo(1_000, 0)],
        &dst,
        &change,
        1_000,
        100,
        BitcoinNetwork::Testnet,
    );
    assert!(matches!(result, Err(WalletError::InsufficientFunds)));
}

#[test]
fn serialization_is_deterministic_and_framed() {
    let dst = testnet_addr(2);
    let change = testnet_addr(3);
    let tx = build_transaction(
        vec![utxo(5_000, 1)],
        &dst,
        &change,
        2_000,
        100,
        BitcoinNetwork::Testnet,
    )
    .unwrap();
    let raw = serialize_transaction(&tx);
    assert_eq!(raw, serialize_transaction(&tx));
    // version 2, little endian
    assert_eq!(&raw[0..4], &[2, 0, 0, 0]);
    // one input
    assert_eq!(&raw[4..12], &[1, 0, 0, 0, 0, 0, 0, 0]);
    // 32-byte transaction id follows
    assert_eq!(&raw[12..20], &[32, 0, 0, 0, 0, 0, 0, 0]);
    assert_eq!(&raw[20..52], &[0xcd; 32]);
}

#[test]
fn planner_balances_against_its_own_fee() {
    let dst = testnet_addr(2);
    let change = testnet_addr(3);
    let tx = plan_spend(
        SpendPolicy::LegacyKeyHash,
        BitcoinNetwork::Testnet,
        vec![utxo(100_000, 0), utxo(50_000, 1)],
        &dst,
        &change,
        50_000,
        2000,
    )
    .unwrap();
    // one selected input covers the payment plus the worst-case fee
    assert_eq!(tx.inputs.len(), 1);
    let fee = estimate_fee(1, 2, 2000);
    assert_eq!(fee, 452);
    let in_sum: u64 = tx.inputs.iter().map(|i| i.value).sum();
    let out_sum: u64 = tx.outputs.iter().map(|o| o.value).sum();
    assert_eq!(in_sum, out_sum + fee);
    assert_eq!(tx.outputs[0].value, 50_000);
    assert_eq!(tx.outputs[1].value, 100_000 - 50_000 - fee);
}

#[test]
fn planner_reports_insufficient_funds() {
    let dst = testnet_addr(2);
    let change = testnet_addr(3);
    let result = plan_spend(
        SpendPolicy::LegacyKeyHash,
        BitcoinNetwork::Testnet,
        vec![utxo(100, 0)],
        &dst,
        &change,
        1_000,
        2000,
    );
    assert!(matches!(result, Err(WalletError::InsufficientFunds)));
}

#[test]
fn planner_checks_the_network_after_funds() {
    let mainnet_dst = derive_address(
        SpendPolicy::LegacyKeyHash,
        BitcoinNetwork::Mainnet,
        &vec![2u8; 33],
    );
    let change = testnet_addr(3);
    let result = plan_spend(
        SpendPolicy::LegacyKeyHash,
        BitcoinNetwork::Testnet,
        vec![utxo(100_000, 0)],
        &mainnet_dst,
        &change,
        1_000,
        2000,
    );
    assert!(matches!(result, Err(WalletError::InvalidAddress)));
}
