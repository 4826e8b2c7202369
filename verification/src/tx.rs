//! Raw transaction assembly and serialization.
//!
//! An unsigned transaction carries one input per selected UTXO, in order,
//! with an empty unlocking script and witness and the maximal sequence
//! number (no relative timelock), one output paying the destination, and a
//! change output returning the remainder to the source. A change of zero is
//! dropped rather than emitted: the value equation
//! `sum(inputs) == sum(outputs) + fee` holds exactly either way.
//!
//! Output scripts commit to the destination address bytes; mapping them to
//! consensus scripts is the gateway's concern. Serialization is
//! little-endian with 64-bit length prefixes, a pure function of the
//! transaction.

use vstd::prelude::*;

use crate::address::{address_network, spec_address_network};
use crate::bytes::{clone_bytes, push_bytes, push_u32_le, push_u64_le, spec_u32_le, spec_u64_le};
use crate::types::{BitcoinNetwork, WalletError};
use crate::utxo::{lemma_sum_values_concat, lemma_sum_values_nonneg, sum_values, Outpoint, Utxo};

verus! {

/// Transaction format version the wallet emits.
pub const TX_VERSION: u32 = 2;

/// Lock time the wallet emits: no absolute timelock.
pub const TX_LOCK_TIME: u32 = 0;

/// Sequence number that disables the relative timelock on an input.
pub const SEQUENCE_FINAL: u32 = 4294967295;

/// One transaction input: the outpoint it spends, that output's value (kept
/// beside the outpoint because every digest construction signs it), the
/// unlocking script, the witness stack, and the sequence number.
pub struct TxIn {
    pub outpoint: Outpoint,
    pub value: u64,
    pub script_sig: Vec<u8>,
    pub witness: Vec<Vec<u8>>,
    pub sequence: u32,
}

/// One transaction output: an amount and the script that locks it.
pub struct TxOut {
    pub value: u64,
    pub script_pubkey: Vec<u8>,
}

/// An ordered list of inputs and outputs with fixed version and lock time.
pub struct Transaction {
    pub version: u32,
    pub inputs: Vec<TxIn>,
    pub outputs: Vec<TxOut>,
    pub lock_time: u32,
}

/// Total value consumed by a sequence of inputs, as an unbounded integer.
pub open spec fn sum_input_values(s: Seq<TxIn>) -> int
    decreases s.len(),
{
    if s.len() == 0 {
        0
    } else {
        sum_input_values(s.drop_last()) + s.last().value
    }
}

/// Total value paid out by a sequence of outputs, as an unbounded integer.
pub open spec fn sum_output_values(s: Seq<TxOut>) -> int
    decreases s.len(),
{
    if s.len() == 0 {
        0
    } else {
        sum_output_values(s.drop_last()) + s.last().value
    }
}

/// An input that spends the given UTXO and is not signed yet.
pub open spec fn spec_is_unsigned_input_for(txin: TxIn, u: Utxo) -> bool {
    &&& txin.outpoint == u.outpoint
    &&& txin.value == u.value
    &&& txin.script_sig@.len() == 0
    &&& txin.witness@.len() == 0
    &&& txin.sequence == SEQUENCE_FINAL
}

/// The unsigned transaction the builder owes for the given selection,
/// destination, amount and fee: inputs mirror the selection in order, the
/// first output pays the destination, and the remainder comes back to the
/// change address unless it is zero, in which case it is dropped.
pub open spec fn spec_is_unsigned_build(
    tx: Transaction,
    utxos: Seq<Utxo>,
    dst: Seq<u8>,
    change_addr: Seq<u8>,
    amount: u64,
    fee: u64,
) -> bool {
    let change = sum_values(utxos) - amount - fee;
    &&& tx.version == TX_VERSION
    &&& tx.lock_time == TX_LOCK_TIME
    &&& tx.inputs@.len() == utxos.len()
    &&& forall|i: int|
        0 <= i < utxos.len() ==> spec_is_unsigned_input_for(#[trigger] tx.inputs@[i], utxos[i])
    &&& tx.outputs@.len() == if change == 0 {
        1int
    } else {
        2int
    }
    &&& tx.outputs@[0].value == amount
    &&& tx.outputs@[0].script_pubkey@ == dst
    &&& change > 0 ==> tx.outputs@[1].value == change && tx.outputs@[1].script_pubkey@
        == change_addr
}

/// Assembles the unsigned transaction for a spend.
///
/// Fails with `InvalidAddress` exactly when the destination or the change
/// address does not belong to the configured chain, and with
/// `InsufficientFunds` exactly when the selection cannot cover amount plus
/// fee. On success the value equation `sum(inputs) == sum(outputs) + fee`
/// holds exactly. Nothing is broadcast here; broadcasting is a separate,
/// explicit step after signing.
pub fn build_transaction(
    utxos: Vec<Utxo>,
    dst_address: &Vec<u8>,
    change_address: &Vec<u8>,
    amount: u64,
    fee: u64,
    network: BitcoinNetwork,
) -> (result: Result<Transaction, WalletError>)
    requires
        sum_values(utxos@) <= u64::MAX,
        amount + fee <= u64::MAX,
    ensures
        result is Err <==> (spec_address_network(dst_address@) != Some(network)
            || spec_address_network(change_address@) != Some(network) || sum_values(utxos@)
            < amount + fee),
        match result {
            Ok(tx) => {
                &&& spec_is_unsigned_build(tx, utxos@, dst_address@, change_address@, amount, fee)
                &&& sum_input_values(tx.inputs@) == sum_output_values(tx.outputs@) + fee
            },
            Err(e) => {
                &&& (e == WalletError::InvalidAddress <==> (spec_address_network(dst_address@)
                    != Some(network) || spec_address_network(change_address@) != Some(network)))
                &&& (e == WalletError::InsufficientFunds <==> (spec_address_network(dst_address@)
                    == Some(network) && spec_address_network(change_address@) == Some(network)
                    && sum_values(utxos@) < amount + fee))
            },
        },
{
    let dst_valid = match address_network(dst_address) {
        Some(n) => n == network,
        None => false,
    };
    if !dst_valid {
        return Err(WalletError::InvalidAddress);
    }
    let change_valid = match address_network(change_address) {
        Some(n) => n == network,
        None => false,
    };
    if !change_valid {
        return Err(WalletError::InvalidAddress);
    }

    // Total value of the selection, provably free of overflow because the
    // running total never exceeds the full sum.
    let mut total: u64 = 0;
    let mut i: usize = 0;
    while i < utxos.len()
        invariant
            i <= utxos@.len(),
            total == sum_values(utxos@.subrange(0, i as int)),
            sum_values(utxos@) <= u64::MAX,
        decreases utxos@.len() - i,
    {
        proof {
            assert(utxos@.subrange(0, i + 1).drop_last() =~= utxos@.subrange(0, i as int));
            assert(utxos@.subrange(0, i + 1).last() == utxos@[i as int]);
            lemma_sum_values_concat(
                utxos@.subrange(0, i + 1),
                utxos@.subrange(i + 1, utxos@.len() as int),
            );
            assert(utxos@.subrange(0, i + 1) + utxos@.subrange(i + 1, utxos@.len() as int)
                =~= utxos@);
            lemma_sum_values_nonneg(utxos@.subrange(i + 1, utxos@.len() as int));
        }
        total = total + utxos[i].value;
        i = i + 1;
    }
    proof {
        assert(utxos@.subrange(0, utxos@.len() as int) =~= utxos@);
    }

    if total < amount + fee {
        return Err(WalletError::InsufficientFunds);
    }
    let change = total - amount - fee;

    // One unsigned input per selected UTXO, in order.
    let ghost orig = utxos@;
    let mut pool = utxos;
    let mut inputs: Vec<TxIn> = Vec::new();
    while pool.len() > 0
        invariant
            orig == utxos@,
            inputs@.len() + pool@.len() == orig.len(),
            pool@ =~= orig.subrange(inputs@.len() as int, orig.len() as int),
            forall|j: int|
                0 <= j < inputs@.len() ==> spec_is_unsigned_input_for(
                    #[trigger] inputs@[j],
                    orig[j],
                ),
            sum_input_values(inputs@) == sum_values(orig.subrange(0, inputs@.len() as int)),
        decreases pool@.len(),
    {
        let ghost k = inputs@.len() as int;
        let u = pool.remove(0);
        proof {
            assert(u == orig[k]);
        }
        let ghost u_snapshot = u;
        let txin = TxIn {
            outpoint: u.outpoint,
            value: u.value,
            script_sig: Vec::new(),
            witness: Vec::new(),
            sequence: SEQUENCE_FINAL,
        };
        let ghost inputs_before = inputs@;
        inputs.push(txin);
        proof {
            assert(inputs@.drop_last() =~= inputs_before);
            assert(spec_is_unsigned_input_for(inputs@.last(), u_snapshot));
            assert(orig.subrange(0, k + 1).drop_last() =~= orig.subrange(0, k));
            assert(orig.subrange(0, k + 1).last() == orig[k]);
            assert(pool@ =~= orig.subrange(k + 1, orig.len() as int));
        }
    }
    proof {
        assert(orig.subrange(0, orig.len() as int) =~= orig);
    }

    // The destination output, then the change output unless it is zero.
    let mut outputs: Vec<TxOut> = Vec::new();
    outputs.push(TxOut { value: amount, script_pubkey: clone_bytes(dst_address) });
    proof {
        assert(outputs@.drop_last() =~= Seq::<TxOut>::empty());
        assert(sum_output_values(Seq::<TxOut>::empty()) == 0);
        assert(sum_output_values(outputs@) == amount);
    }
    if change > 0 {
        let ghost outputs_before = outputs@;
        outputs.push(TxOut { value: change, script_pubkey: clone_bytes(change_address) });
        proof {
            assert(outputs@.drop_last() =~= outputs_before);
        }
    }

    Ok(Transaction { version: TX_VERSION, inputs, outputs, lock_time: TX_LOCK_TIME })
}

/// Serialized form of one input.
pub open spec fn spec_ser_input(txin: TxIn) -> Seq<u8> {
    spec_u64_le(txin.outpoint.txid@.len() as u64) + txin.outpoint.txid@ + spec_u32_le(
        txin.outpoint.vout,
    ) + spec_u64_le(txin.value) + spec_u32_le(txin.sequence) + spec_u64_le(
        txin.script_sig@.len() as u64,
    ) + txin.script_sig@ + spec_u64_le(txin.witness@.len() as u64) + spec_ser_chunks(txin.witness@)
}

/// Serialized form of a stack of byte strings, each with its length.
pub open spec fn spec_ser_chunks(s: Seq<Vec<u8>>) -> Seq<u8>
    decreases s.len(),
{
    if s.len() == 0 {
        Seq::empty()
    } else {
        spec_ser_chunks(s.drop_last()) + spec_u64_le(s.last()@.len() as u64) + s.last()@
    }
}

/// Serialized form of a sequence of inputs, in order.
pub open spec fn spec_ser_inputs(s: Seq<TxIn>) -> Seq<u8>
    decreases s.len(),
{
    if s.len() == 0 {
        Seq::empty()
    } else {
        spec_ser_inputs(s.drop_last()) + spec_ser_input(s.last())
    }
}

/// Serialized form of one output.
pub open spec fn spec_ser_output(o: TxOut) -> Seq<u8> {
    spec_u64_le(o.value) + spec_u64_le(o.script_pubkey@.len() as u64) + o.script_pubkey@
}

/// Serialized form of a sequence of outputs, in order.
pub open spec fn spec_ser_outputs(s: Seq<TxOut>) -> Seq<u8>
    decreases s.len(),
{
    if s.len() == 0 {
        Seq::empty()
    } else {
        spec_ser_outputs(s.drop_last()) + spec_ser_output(s.last())
    }
}

/// Serialized form of a whole transaction: version, inputs, outputs, lock
/// time, with 64-bit counts.
pub open spec fn spec_ser_transaction(tx: Transaction) -> Seq<u8> {
    spec_u32_le(tx.version) + spec_u64_le(tx.inputs@.len() as u64) + spec_ser_inputs(tx.inputs@)
        + spec_u64_le(tx.outputs@.len() as u64) + spec_ser_outputs(tx.outputs@) + spec_u32_le(
        tx.lock_time,
    )
}

/// Appends the serialized form of one input.
fn push_ser_input(out: &mut Vec<u8>, txin: &TxIn)
    ensures
        final(out)@ == old(out)@ + spec_ser_input(*txin),
{
    push_u64_le(out, txin.outpoint.txid.len() as u64);
    push_bytes(out, &txin.outpoint.txid);
    push_u32_le(out, txin.outpoint.vout);
    push_u64_le(out, txin.value);
    push_u32_le(out, txin.sequence);
    push_u64_le(out, txin.script_sig.len() as u64);
    push_bytes(out, &txin.script_sig);
    push_u64_le(out, txin.witness.len() as u64);
    let ghost mid = out@;
    let mut w: usize = 0;
    while w < txin.witness.len()
        invariant
            w <= txin.witness@.len(),
            out@ == mid + spec_ser_chunks(txin.witness@.subrange(0, w as int)),
        decreases txin.witness@.len() - w,
    {
        push_u64_le(out, txin.witness[w].len() as u64);
        push_bytes(out, &txin.witness[w]);
        proof {
            let sub1 = txin.witness@.subrange(0, w + 1);
            assert(sub1.drop_last() =~= txin.witness@.subrange(0, w as int));
            assert(sub1.last() == txin.witness@[w as int]);
            assert(out@ =~= mid + spec_ser_chunks(sub1));
        }
        w = w + 1;
    }
    proof {
        assert(txin.witness@.subrange(0, txin.witness@.len() as int) =~= txin.witness@);
        assert(out@ =~= old(out)@ + spec_ser_input(*txin));
    }
}

/// Appends the serialized form of a sequence of outputs.
pub fn push_ser_outputs(out: &mut Vec<u8>, outputs: &Vec<TxOut>)
    ensures
        final(out)@ == old(out)@ + spec_ser_outputs(outputs@),
{
    let ghost start = out@;
    let mut j: usize = 0;
    while j < outputs.len()
        invariant
            j <= outputs@.len(),
            out@ == start + spec_ser_outputs(outputs@.subrange(0, j as int)),
        decreases outputs@.len() - j,
    {
        push_u64_le(out, outputs[j].value);
        push_u64_le(out, outputs[j].script_pubkey.len() as u64);
        push_bytes(out, &outputs[j].script_pubkey);
        proof {
            let sub1 = outputs@.subrange(0, j + 1);
            assert(sub1.drop_last() =~= outputs@.subrange(0, j as int));
            assert(sub1.last() == outputs@[j as int]);
            assert(out@ =~= start + spec_ser_outputs(sub1));
        }
        j = j + 1;
    }
    proof {
        assert(outputs@.subrange(0, outputs@.len() as int) =~= outputs@);
    }
}

/// Serializes a transaction for broadcast. A pure function of the
/// transaction value.
pub fn serialize_transaction(tx: &Transaction) -> (raw: Vec<u8>)
    ensures
        raw@ == spec_ser_transaction(*tx),
{
    let mut out: Vec<u8> = Vec::new();
    push_u32_le(&mut out, tx.version);
    push_u64_le(&mut out, tx.inputs.len() as u64);
    let ghost after_header = out@;
    let mut i: usize = 0;
    while i < tx.inputs.len()
        invariant
            i <= tx.inputs@.len(),
            out@ == after_header + spec_ser_inputs(tx.inputs@.subrange(0, i as int)),
        decreases tx.inputs@.len() - i,
    {
        push_ser_input(&mut out, &tx.inputs[i]);
        proof {
            let sub1 = tx.inputs@.subrange(0, i + 1);
            assert(sub1.drop_last() =~= tx.inputs@.subrange(0, i as int));
            assert(sub1.last() == tx.inputs@[i as int]);
            assert(out@ =~= after_header + spec_ser_inputs(sub1));
        }
        i = i + 1;
    }
    proof {
        assert(tx.inputs@.subrange(0, tx.inputs@.len() as int) =~= tx.inputs@);
    }
    push_u64_le(&mut out, tx.outputs.len() as u64);
    push_ser_outputs(&mut out, &tx.outputs);
    push_u32_le(&mut out, tx.lock_time);
    proof {
        assert(out@ =~= spec_ser_transaction(*tx));
    }
    out
}

} // verus!
