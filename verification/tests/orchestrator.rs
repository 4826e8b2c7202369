use btc_ckbtc_wallet::ckbtc::CkBTCWallet;
use btc_ckbtc_wallet::state::State;
use btc_ckbtc_wallet::types::{ConversionStatus, Network, UserPreferences, WalletError};

fn funded_state(user: u64, wrapped: u64) -> State {
    let mut state = State::default();
    state.init(Some(1));
    if wrapped > 0 {
        state.mint_wrapped(user, wrapped);
    }
    state
}

#[test]
fn test_balance_operations() {
    let mut wallet = CkBTCWallet::new(0);
    let user = 0u64;

    // Initial balance should be 0
    assert_eq!(wallet.get_ckbtc_balance_sync(user).unwrap(), 0);

    // Mint some test tokens
    wallet.mint_test_tokens(user, 1000);
    assert_eq!(wallet.get_ckbtc_balance_sync(user).unwrap(), 1000);
}

#[test]
fn wrapped_to_native_end_to_end() {
    let mut state = funded_state(7, 1000);
    state.register_btc_address(7, b"tb1qdestination".to_vec());

    assert!(state.convert_to_btc(7, 111).is_ok());

    // exactly one record, transitioned through Pending to Complete
    let history = state.get_conversion_history(7);
    assert_eq!(history.len(), 1);
    let record = &history[0];
    assert_eq!(record.timestamp, 111);
    assert_eq!(record.amount, 1000);
    assert_eq!(record.from_network, Network::CkBTC);
    assert_eq!(record.to_network, Network::Bitcoin);
    assert_eq!(record.status, ConversionStatus::Complete);

    // the whole wrapped balance moved
    assert_eq!(state.get_balances(7, 0).ckbtc, 0);
}

#[test]
fn zero_native_balance_appends_nothing() {
    let mut state = funded_state(7, 0);
    state.register_btc_address(7, b"tb1qdestination".to_vec());

    let result = state.start_conversion_to_ckbtc(7, 0, 5);
    assert!(matches!(result, Err(WalletError::NoBalance)));
    // it must never append before the balance check
    assert!(state.get_conversion_history(7).is_empty());
}

#[test]
fn concurrent_native_conversions_move_the_balance_once() {
    let mut state = funded_state(7, 1000);
    state.register_btc_address(7, b"tb1qdestination".to_vec());

    // the first caller starts and reaches its suspension point
    let plan = state.start_conversion_to_btc(7, 1).unwrap();
    assert_eq!(plan.amount, 1000);

    // a second caller arrives while the first is in flight
    let second = state.convert_to_btc(7, 2);
    assert!(matches!(second, Err(WalletError::ConversionInProgress)));

    // the first caller finishes its transfer and records the outcome
    state.redeem_wrapped(7, plan.to_address, plan.amount).unwrap();
    state.finish_conversion(7, ConversionStatus::Complete);

    let moved = 1000 - state.get_balances(7, 0).ckbtc;
    assert!(moved == 1000 || moved == 2000);
    assert_eq!(moved, 1000);
    assert_eq!(state.get_conversion_history(7).len(), 1);
}

#[test]
fn failed_transfer_leaves_one_failed_record() {
    let mut state = funded_state(7, 0);
    state.register_btc_address(7, b"tb1qdestination".to_vec());

    let plan = state.start_conversion_to_ckbtc(7, 500, 9).unwrap();
    assert_eq!(plan.amount, 500);
    assert_eq!(plan.from_address, b"tb1qdestination".to_vec());

    // the send failed out in the world; the record keeps the reason
    state.finish_conversion(7, ConversionStatus::Failed(WalletError::GatewayError));

    let history = state.get_conversion_history(7);
    assert_eq!(history.len(), 1);
    let record = &history[0];
    assert_eq!(record.amount, 500);
    assert_eq!(record.timestamp, 9);
    assert_eq!(record.from_network, Network::Bitcoin);
    assert_eq!(record.to_network, Network::CkBTC);
    assert_eq!(
        record.status,
        ConversionStatus::Failed(WalletError::GatewayError)
    );

    // the guard dropped: a new attempt may start
    assert!(state.start_conversion_to_ckbtc(7, 500, 10).is_ok());
}

#[test]
fn each_check_fails_with_its_own_error() {
    // no minter configured
    let mut no_minter = State::default();
    assert!(matches!(
        no_minter.convert_to_btc(7, 0),
        Err(WalletError::MinterError)
    ));

    // no wrapped balance
    let mut no_balance = funded_state(7, 0);
    no_balance.register_btc_address(7, b"tb1qdestination".to_vec());
    assert!(matches!(
        no_balance.convert_to_btc(7, 0),
        Err(WalletError::NoBalance)
    ));

    // no registered address
    let mut no_address = funded_state(7, 10);
    assert!(matches!(
        no_address.convert_to_btc(7, 0),
        Err(WalletError::AddressNotFound)
    ));

    // none of the failures records anything
    assert!(no_minter.get_conversion_history(7).is_empty());
    assert!(no_balance.get_conversion_history(7).is_empty());
    assert!(no_address.get_conversion_history(7).is_empty());
}

#[test]
fn preferences_default_and_update() {
    let defaults = UserPreferences::default();
    assert_eq!(defaults.preferred_network, Network::Bitcoin);
    assert!(!defaults.auto_convert);
    assert_eq!(defaults.min_amount, 0);

    let mut state = State::default();
    assert_eq!(state.get_preferred_network(3), Network::Bitcoin);
    state.set_preferred_network(3, Network::CkBTC);
    assert_eq!(state.get_preferred_network(3), Network::CkBTC);
    // other users keep the default
    assert_eq!(state.get_preferred_network(4), Network::Bitcoin);
}

#[test]
fn balances_need_a_registered_address() {
    let mut state = funded_state(7, 250);
    // the gateway balance only counts once an address is registered
    assert_eq!(state.get_balances(7, 900).btc, 0);
    assert_eq!(state.get_balances(7, 900).ckbtc, 250);
    state.register_btc_address(7, b"tb1qdestination".to_vec());
    assert_eq!(state.get_balances(7, 900).btc, 900);
}

#[test]
fn histories_are_per_user() {
    let mut state = funded_state(7, 100);
    state.mint_wrapped(8, 100);
    state.register_btc_address(7, b"tb1qseven".to_vec());
    state.register_btc_address(8, b"tb1qeight".to_vec());

    state.convert_to_btc(7, 1).unwrap();
    assert_eq!(state.get_conversion_history(7).len(), 1);
    assert!(state.get_conversion_history(8).is_empty());

    state.convert_to_btc(8, 2).unwrap();
    assert_eq!(state.get_conversion_history(7).len(), 1);
    assert_eq!(state.get_conversion_history(8).len(), 1);
}
