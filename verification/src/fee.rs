//! Fee estimation: converts a fee-rate sample into an absolute fee for an
//! estimated transaction size.
//!
//! The transaction size is a fixed linear model
//! `size = input_count * INPUT_VBYTES + output_count * OUTPUT_VBYTES + TX_OVERHEAD_VBYTES`
//! and the fee is `size * fee_rate / 1000`, where the rate is in
//! millisatoshi per byte and the division truncates toward zero.

use vstd::prelude::*;

use crate::types::SpendPolicy;
use crate::utxo::MillisatoshiPerByte;

verus! {

/// Estimated size in bytes of one legacy key-hash input, including its
/// unlocking script.
pub const INPUT_VBYTES: u64 = 148;

/// Estimated size in bytes of one output.
pub const OUTPUT_VBYTES: u64 = 34;

/// Fixed per-transaction overhead in bytes (version, counts, lock time).
pub const TX_OVERHEAD_VBYTES: u64 = 10;

/// Size in bytes that the linear model assigns to a transaction with the
/// given input and output counts.
pub open spec fn spec_tx_size(input_count: int, output_count: int) -> int {
    input_count * (INPUT_VBYTES as int) + output_count * (OUTPUT_VBYTES as int)
        + (TX_OVERHEAD_VBYTES as int)
}

/// Fee in satoshi that the model assigns: size times the rate in
/// millisatoshi per byte, truncated down to whole satoshi.
pub open spec fn spec_fee(input_count: int, output_count: int, fee_rate: int) -> int {
    spec_tx_size(input_count, output_count) * fee_rate / 1000
}

/// Absolute fee for a transaction with `input_count` inputs and
/// `output_count` outputs at `fee_rate` millisatoshi per byte.
pub fn estimate_fee(input_count: u64, output_count: u64, fee_rate: u64) -> (fee: u64)
    requires
        spec_tx_size(input_count as int, output_count as int) <= u64::MAX,
        spec_tx_size(input_count as int, output_count as int) * fee_rate <= u64::MAX,
    ensures
        fee == spec_fee(input_count as int, output_count as int, fee_rate as int),
{
    let size = input_count * INPUT_VBYTES + output_count * OUTPUT_VBYTES + TX_OVERHEAD_VBYTES;
    size * fee_rate / 1000
}

/// Estimated size in bytes of one taproot script-path input: the witness
/// carries the signature, the revealed leaf script and the control block.
pub const TAPROOT_SCRIPT_INPUT_VBYTES: u64 = 106;

/// Estimated size in bytes of one taproot key-path input: the witness is a
/// single signature.
pub const TAPROOT_KEY_INPUT_VBYTES: u64 = 58;

/// Per-input size of the linear model under each spend policy. Legacy
/// key-hash inputs are the largest; taproot witness spends are cheaper.
pub open spec fn spec_input_vbytes(policy: SpendPolicy) -> u64 {
    match policy {
        SpendPolicy::LegacyKeyHash => INPUT_VBYTES,
        SpendPolicy::TaprootScriptPath => TAPROOT_SCRIPT_INPUT_VBYTES,
        SpendPolicy::TaprootKeyPath => TAPROOT_KEY_INPUT_VBYTES,
    }
}

/// Size in bytes that the model assigns under a policy.
pub open spec fn spec_tx_size_for_policy(
    policy: SpendPolicy,
    input_count: int,
    output_count: int,
) -> int {
    input_count * (spec_input_vbytes(policy) as int) + output_count * (OUTPUT_VBYTES as int)
        + (TX_OVERHEAD_VBYTES as int)
}

/// Fee in satoshi that the model assigns under a policy.
pub open spec fn spec_fee_for_policy(
    policy: SpendPolicy,
    input_count: int,
    output_count: int,
    fee_rate: int,
) -> int {
    spec_tx_size_for_policy(policy, input_count, output_count) * fee_rate / 1000
}

/// Exec mirror of [`spec_input_vbytes`].
pub fn input_vbytes(policy: SpendPolicy) -> (size: u64)
    ensures
        size == spec_input_vbytes(policy),
{
    match policy {
        SpendPolicy::LegacyKeyHash => INPUT_VBYTES,
        SpendPolicy::TaprootScriptPath => TAPROOT_SCRIPT_INPUT_VBYTES,
        SpendPolicy::TaprootKeyPath => TAPROOT_KEY_INPUT_VBYTES,
    }
}

/// Absolute fee for a transaction under the given policy.
pub fn estimate_fee_for_policy(
    policy: SpendPolicy,
    input_count: u64,
    output_count: u64,
    fee_rate: u64,
) -> (fee: u64)
    requires
        spec_tx_size_for_policy(policy, input_count as int, output_count as int) <= u64::MAX,
        spec_tx_size_for_policy(policy, input_count as int, output_count as int) * fee_rate
            <= u64::MAX,
    ensures
        fee == spec_fee_for_policy(policy, input_count as int, output_count as int, fee_rate as int),
{
    let size = input_count * input_vbytes(policy) + output_count * OUTPUT_VBYTES
        + TX_OVERHEAD_VBYTES;
    size * fee_rate / 1000
}

/// Fee rate assumed when the gateway returns no percentile sample, in
/// millisatoshi per byte.
pub const FALLBACK_FEE_RATE: u64 = 2000;

/// The rate the wallet works with, given the gateway's ordered percentile
/// sample: the median entry, or the fixed fallback when the sample is empty.
pub open spec fn spec_working_fee_rate(samples: Seq<MillisatoshiPerByte>) -> u64 {
    if samples.len() == 0 {
        FALLBACK_FEE_RATE
    } else {
        samples[samples.len() as int / 2].0
    }
}

/// Picks the working fee rate out of a percentile sample.
pub fn working_fee_rate(samples: &Vec<MillisatoshiPerByte>) -> (rate: u64)
    ensures
        rate == spec_working_fee_rate(samples@),
{
    if samples.len() == 0 {
        FALLBACK_FEE_RATE
    } else {
        samples[samples.len() / 2].0
    }
}

} // verus!
