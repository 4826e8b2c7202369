use btc_ckbtc_wallet::fee::{
    estimate_fee, estimate_fee_for_policy, working_fee_rate, FALLBACK_FEE_RATE,
};
use btc_ckbtc_wallet::types::SpendPolicy;
use btc_ckbtc_wallet::utxo::MillisatoshiPerByte;

#[test]
fn linear_model_exact_value() {
    // (148 * 1 + 34 * 2 + 10) * 2000 / 1000
    assert_eq!(estimate_fee(1, 2, 2000), 452);
}

#[test]
fn division_truncates_toward_zero() {
    // size 226 bytes at 999 millisatoshi per byte: 225774 / 1000 rounds down
    assert_eq!(estimate_fee(1, 2, 999), 225);
}

#[test]
fn zero_rate_gives_zero_fee() {
    assert_eq!(estimate_fee(1, 2, 0), 0);
}

#[test]
fn legacy_inputs_cost_more_than_taproot() {
    let legacy = estimate_fee_for_policy(SpendPolicy::LegacyKeyHash, 3, 2, 1000);
    let script = estimate_fee_for_policy(SpendPolicy::TaprootScriptPath, 3, 2, 1000);
    let key = estimate_fee_for_policy(SpendPolicy::TaprootKeyPath, 3, 2, 1000);
    assert!(legacy > script);
    assert!(script > key);
    assert_eq!(legacy, estimate_fee(3, 2, 1000));
}

#[test]
fn empty_sample_falls_back_to_fixed_rate() {
    assert_eq!(working_fee_rate(&Vec::new()), FALLBACK_FEE_RATE);
    assert_eq!(FALLBACK_FEE_RATE, 2000);
}

#[test]
fn median_entry_is_the_working_rate() {
    let odd = vec![
        MillisatoshiPerByte(1000),
        MillisatoshiPerByte(1500),
        MillisatoshiPerByte(9000),
    ];
    assert_eq!(working_fee_rate(&odd), 1500);

    let even = vec![
        MillisatoshiPerByte(1),
        MillisatoshiPerByte(2),
        MillisatoshiPerByte(3),
        MillisatoshiPerByte(4),
    ];
    assert_eq!(working_fee_rate(&even), 3);

    let single = vec![MillisatoshiPerByte(777)];
    assert_eq!(working_fee_rate(&single), 777);
}
