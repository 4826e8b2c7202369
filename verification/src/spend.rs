//! The spend planner: fee estimation, coin selection and transaction
//! assembly composed into one step.
//!
//! The selection target adds to the payment the fee for the worst case that
//! every available UTXO is consumed; the final fee is then recomputed for
//! the inputs actually selected (always assuming the two outputs of a simple
//! send), so the selection is guaranteed to cover it and the difference
//! comes back as change. Signing and broadcasting are separate steps.

use vstd::prelude::*;

use vstd::arithmetic::div_mod::lemma_div_is_ordered;
use vstd::arithmetic::mul::lemma_mul_inequality;

use crate::address::spec_address_network;
use crate::coin_select::select_utxos;
use crate::fee::{
    estimate_fee_for_policy, spec_fee_for_policy, spec_input_vbytes, spec_tx_size_for_policy,
};
use crate::tx::{
    build_transaction, spec_is_unsigned_build, sum_input_values, sum_output_values, Transaction,
};
use crate::types::{BitcoinNetwork, SpendPolicy, WalletError};
use crate::utxo::{sum_values, Utxo};

verus! {

/// The size model grows with the input count, so the fee does too.
proof fn lemma_fee_monotone_in_inputs(policy: SpendPolicy, k: int, n: int, fee_rate: int)
    requires
        0 <= k <= n,
        0 <= fee_rate,
    ensures
        spec_tx_size_for_policy(policy, k, 2) <= spec_tx_size_for_policy(policy, n, 2),
        spec_tx_size_for_policy(policy, k, 2) * fee_rate <= spec_tx_size_for_policy(policy, n, 2)
            * fee_rate,
        spec_fee_for_policy(policy, k, 2, fee_rate) <= spec_fee_for_policy(policy, n, 2, fee_rate),
{
    lemma_mul_inequality(k, n, spec_input_vbytes(policy) as int);
    lemma_mul_inequality(
        spec_tx_size_for_policy(policy, k, 2),
        spec_tx_size_for_policy(policy, n, 2),
        fee_rate,
    );
    lemma_div_is_ordered(
        spec_tx_size_for_policy(policy, k, 2) * fee_rate,
        spec_tx_size_for_policy(policy, n, 2) * fee_rate,
        1000,
    );
}

/// Plans a whole spend: estimates the fee, selects coins largest-first, and
/// assembles the unsigned transaction.
///
/// Fails with `InsufficientFunds` exactly when the full UTXO set cannot
/// cover the amount plus the fee for consuming all of it, and with
/// `InvalidAddress` when the funds suffice but an address does not belong
/// to the configured chain. Success is owed whenever the addresses are good
/// and the funds suffice; the built transaction then spends a subset of the
/// given UTXOs and balances exactly against the fee for its own input
/// count.
pub fn plan_spend(
    policy: SpendPolicy,
    network: BitcoinNetwork,
    utxos: Vec<Utxo>,
    dst_address: &Vec<u8>,
    change_address: &Vec<u8>,
    amount: u64,
    fee_rate: u64,
) -> (result: Result<Transaction, WalletError>)
    requires
        sum_values(utxos@) <= u64::MAX,
        spec_tx_size_for_policy(policy, utxos@.len() as int, 2) <= u64::MAX,
        spec_tx_size_for_policy(policy, utxos@.len() as int, 2) * fee_rate <= u64::MAX,
        amount + spec_fee_for_policy(policy, utxos@.len() as int, 2, fee_rate as int) <= u64::MAX,
    ensures
        result is Err <==> (sum_values(utxos@) < amount + spec_fee_for_policy(
            policy,
            utxos@.len() as int,
            2,
            fee_rate as int,
        ) || spec_address_network(dst_address@) != Some(network) || spec_address_network(
            change_address@,
        ) != Some(network)),
        match result {
            Ok(tx) => {
                let fee = spec_fee_for_policy(policy, tx.inputs@.len() as int, 2, fee_rate as int);
                &&& spec_address_network(dst_address@) == Some(network)
                &&& spec_address_network(change_address@) == Some(network)
                &&& sum_input_values(tx.inputs@) == sum_output_values(tx.outputs@) + fee
                &&& exists|selected: Seq<Utxo>|
                    {
                        &&& (#[trigger] selected.to_multiset()).subset_of(utxos@.to_multiset())
                        &&& sum_values(selected) >= amount + fee
                        &&& spec_is_unsigned_build(
                            tx,
                            selected,
                            dst_address@,
                            change_address@,
                            amount,
                            fee as u64,
                        )
                    }
            },
            Err(e) => {
                &&& (e == WalletError::InsufficientFunds <==> sum_values(utxos@) < amount
                    + spec_fee_for_policy(policy, utxos@.len() as int, 2, fee_rate as int))
                &&& (e == WalletError::InvalidAddress <==> (sum_values(utxos@) >= amount
                    + spec_fee_for_policy(policy, utxos@.len() as int, 2, fee_rate as int) && (
                spec_address_network(dst_address@) != Some(network) || spec_address_network(
                    change_address@,
                ) != Some(network))))
            },
        },
{
    let ghost n = utxos@.len() as int;
    let fee_cap = estimate_fee_for_policy(policy, utxos.len() as u64, 2, fee_rate);
    let target = amount + fee_cap;
    let selected = match select_utxos(utxos, target) {
        Ok(selected) => selected,
        Err(e) => {
            return Err(e);
        },
    };
    let ghost selected_view = selected@;
    proof {
        lemma_fee_monotone_in_inputs(policy, selected@.len() as int, n, fee_rate as int);
    }
    let fee = estimate_fee_for_policy(policy, selected.len() as u64, 2, fee_rate);
    match build_transaction(selected, dst_address, change_address, amount, fee, network) {
        Ok(tx) => {
            proof {
                assert(selected_view.to_multiset().subset_of(utxos@.to_multiset())
                    && sum_values(selected_view) >= amount + fee && spec_is_unsigned_build(
                    tx,
                    selected_view,
                    dst_address@,
                    change_address@,
                    amount,
                    fee,
                ));
            }
            Ok(tx)
        },
        Err(e) => Err(e),
    }
}

} // verus!
