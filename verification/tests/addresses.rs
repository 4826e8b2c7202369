use btc_ckbtc_wallet::address::{address_network, derive_address, extend_derivation_path};
use btc_ckbtc_wallet::types::{BitcoinNetwork, SpendPolicy};

#[test]
fn derivation_is_repeatable() {
    let key = vec![2u8; 33];
    let first = derive_address(SpendPolicy::LegacyKeyHash, BitcoinNetwork::Testnet, &key);
    let second = derive_address(SpendPolicy::LegacyKeyHash, BitcoinNetwork::Testnet, &key);
    assert_eq!(first, second);
}

#[test]
fn policies_get_distinct_addresses() {
    let key = vec![7u8; 32];
    let legacy = derive_address(SpendPolicy::LegacyKeyHash, BitcoinNetwork::Mainnet, &key);
    let script = derive_address(SpendPolicy::TaprootScriptPath, BitcoinNetwork::Mainnet, &key);
    let keypath = derive_address(SpendPolicy::TaprootKeyPath, BitcoinNetwork::Mainnet, &key);
    assert_ne!(legacy, script);
    assert_ne!(script, keypath);
    assert_ne!(legacy, keypath);
}

#[test]
fn address_encoding_exact() {
    let key = vec![0x00, 0xff];
    let addr = derive_address(SpendPolicy::TaprootKeyPath, BitcoinNetwork::Mainnet, &key);
    assert_eq!(addr, b"bc1k00ff".to_vec());
    let addr = derive_address(SpendPolicy::TaprootScriptPath, BitcoinNetwork::Regtest, &key);
    assert_eq!(addr, b"bcrt1s00ff".to_vec());
}

#[test]
fn derived_addresses_carry_their_network() {
    let key = vec![1u8; 32];
    for net in [
        BitcoinNetwork::Mainnet,
        BitcoinNetwork::Testnet,
        BitcoinNetwork::Regtest,
    ] {
        let addr = derive_address(SpendPolicy::TaprootKeyPath, net, &key);
        assert_eq!(address_network(&addr), Some(net));
    }
}

#[test]
fn network_detection_by_prefix() {
    assert_eq!(
        address_network(&b"bc1xyz".to_vec()),
        Some(BitcoinNetwork::Mainnet)
    );
    assert_eq!(
        address_network(&b"tb1xyz".to_vec()),
        Some(BitcoinNetwork::Testnet)
    );
    assert_eq!(
        address_network(&b"bcrt1x".to_vec()),
        Some(BitcoinNetwork::Regtest)
    );
    assert_eq!(address_network(&b"1abcdef".to_vec()), None);
    // nothing after the separator
    assert_eq!(address_network(&b"bc1".to_vec()), None);
    assert_eq!(address_network(&Vec::new()), None);
}

#[test]
fn taproot_policies_extend_the_derivation_path() {
    let base = vec![vec![44u8], vec![0u8]];

    let legacy = extend_derivation_path(base.clone(), SpendPolicy::LegacyKeyHash);
    assert_eq!(legacy, base);

    let script = extend_derivation_path(base.clone(), SpendPolicy::TaprootScriptPath);
    assert_eq!(script.len(), 3);
    assert_eq!(script[0..2], base[..]);
    assert_eq!(script.last().unwrap().as_slice(), b"script_spend");

    let keypath = extend_derivation_path(base.clone(), SpendPolicy::TaprootKeyPath);
    assert_eq!(keypath.len(), 3);
    assert_eq!(keypath.last().unwrap().as_slice(), b"key_spend");
}
