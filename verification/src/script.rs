//! Signature engine: per-input signature digests, locking scripts, and the
//! unlocking script or witness assembled around a threshold signature.
//!
//! The wallet holds no key material. It computes the digest an input must be
//! signed over, hands that digest out to the threshold signing service, and
//! assembles whatever signature comes back into the input's unlocking data.
//! Signature and key bytes are checked structurally (length and, for a
//! legacy key, the compressed-point parity byte); verifying the signature
//! against the digest is the signing service's and the chain's concern. For
//! the same reason locking scripts commit to the key bytes themselves: the
//! hashing and curve tweaking behind on-chain commitments happen outside
//! this process.

use vstd::prelude::*;

use crate::bytes::{clone_bytes, push_bytes, push_u32_le, push_u64_le, spec_u32_le, spec_u64_le};
use crate::types::{SpendPolicy, WalletError};
use crate::tx::{push_ser_outputs, spec_ser_outputs, Transaction, TxIn};

verus! {

/// Sighash flag the wallet signs with: commit to all inputs and outputs.
pub const SIGHASH_ALL: u8 = 1;

/// Leaf version byte of the committed taproot script.
pub const LEAF_VERSION: u8 = 192;

/// A well-formed signature under a policy: a DER-encoded ECDSA signature of
/// plausible length for a legacy spend, a 64-byte Schnorr signature for
/// either taproot spend.
pub open spec fn spec_valid_signature(policy: SpendPolicy, sig: Seq<u8>) -> bool {
    match policy {
        SpendPolicy::LegacyKeyHash => 8 <= sig.len() <= 72,
        SpendPolicy::TaprootScriptPath => sig.len() == 64,
        SpendPolicy::TaprootKeyPath => sig.len() == 64,
    }
}

/// A parseable public key under a policy: a 33-byte compressed SEC1 point
/// (leading parity byte 2 or 3) for a legacy spend, a 32-byte x-only key
/// for either taproot spend.
pub open spec fn spec_valid_public_key(policy: SpendPolicy, key: Seq<u8>) -> bool {
    match policy {
        SpendPolicy::LegacyKeyHash => key.len() == 33 && (key[0] == 2 || key[0] == 3),
        SpendPolicy::TaprootScriptPath => key.len() == 32,
        SpendPolicy::TaprootKeyPath => key.len() == 32,
    }
}

/// Minimal data push: one length byte, then the data. Only used for data of
/// at most 75 bytes, where this encoding is the canonical one.
pub open spec fn spec_push_data(data: Seq<u8>) -> Seq<u8> {
    seq![data.len() as u8] + data
}

/// The locking script a key controls under a policy. Legacy key-hash locks
/// have the classic five-part shape; both taproot policies lock to the
/// 32-byte output key.
pub open spec fn spec_lock_script(policy: SpendPolicy, key: Seq<u8>) -> Seq<u8> {
    match policy {
        SpendPolicy::LegacyKeyHash => seq![118u8, 169u8] + spec_push_data(key) + seq![
            136u8,
            172u8,
        ],
        SpendPolicy::TaprootScriptPath => seq![81u8, 32u8] + key,
        SpendPolicy::TaprootKeyPath => seq![81u8, 32u8] + key,
    }
}

/// The taproot leaf script the wallet commits to: pay to this key by
/// checksig.
pub open spec fn spec_leaf_script(key: Seq<u8>) -> Seq<u8> {
    spec_push_data(key) + seq![172u8]
}

/// The control block revealed on a script-path spend: the leaf version,
/// then the internal key.
pub open spec fn spec_control_block(key: Seq<u8>) -> Seq<u8> {
    seq![LEAF_VERSION] + key
}

/// The unlocking script of a legacy spend: the signature with the sighash
/// flag appended, then the public key, each as a data push.
pub open spec fn spec_legacy_script_sig(sig: Seq<u8>, key: Seq<u8>) -> Seq<u8> {
    spec_push_data(sig + seq![SIGHASH_ALL]) + spec_push_data(key)
}

/// The unlocking script assembled under a policy; empty for witness spends.
pub open spec fn spec_assemble_script_sig(policy: SpendPolicy, sig: Seq<u8>, key: Seq<u8>) -> Seq<
    u8,
> {
    match policy {
        SpendPolicy::LegacyKeyHash => spec_legacy_script_sig(sig, key),
        SpendPolicy::TaprootScriptPath => Seq::empty(),
        SpendPolicy::TaprootKeyPath => Seq::empty(),
    }
}

/// The witness stack assembled under a policy; empty for a legacy spend,
/// the bare signature for a key-path spend, and signature, revealed script
/// and control block for a script-path spend.
pub open spec fn spec_assemble_witness(policy: SpendPolicy, sig: Seq<u8>, key: Seq<u8>) -> Seq<
    Seq<u8>,
> {
    match policy {
        SpendPolicy::LegacyKeyHash => Seq::empty(),
        SpendPolicy::TaprootScriptPath => seq![
            sig,
            spec_leaf_script(key),
            spec_control_block(key),
        ],
        SpendPolicy::TaprootKeyPath => seq![sig],
    }
}

/// Whether unlocking data satisfies a locking script, structurally: the
/// unlock carries a well-formed signature and commits to the same key as
/// the lock.
pub open spec fn spec_unlock_satisfies_lock(
    policy: SpendPolicy,
    script_sig: Seq<u8>,
    witness: Seq<Seq<u8>>,
    lock: Seq<u8>,
) -> bool {
    match policy {
        SpendPolicy::LegacyKeyHash => {
            &&& witness.len() == 0
            &&& exists|sig: Seq<u8>, key: Seq<u8>|
                {
                    &&& #[trigger] spec_legacy_script_sig(sig, key) == script_sig
                    &&& spec_valid_signature(policy, sig)
                    &&& spec_valid_public_key(policy, key)
                    &&& lock == spec_lock_script(policy, key)
                }
        },
        SpendPolicy::TaprootScriptPath => {
            &&& script_sig.len() == 0
            &&& witness.len() == 3
            &&& spec_valid_signature(policy, witness[0])
            &&& exists|key: Seq<u8>|
                {
                    &&& #[trigger] spec_control_block(key) == witness[2]
                    &&& spec_valid_public_key(policy, key)
                    &&& witness[1] == spec_leaf_script(key)
                    &&& lock == spec_lock_script(policy, key)
                }
        },
        SpendPolicy::TaprootKeyPath => {
            &&& script_sig.len() == 0
            &&& witness.len() == 1
            &&& spec_valid_signature(policy, witness[0])
            &&& exists|key: Seq<u8>|
                {
                    &&& #[trigger] spec_lock_script(policy, key) == lock
                    &&& spec_valid_public_key(policy, key)
                }
        },
    }
}

/// Unlocking data assembled from any well-formed signature satisfies the
/// locking script of the key it was assembled with.
pub proof fn lemma_assembled_unlock_satisfies_lock(policy: SpendPolicy, sig: Seq<u8>, key: Seq<u8>)
    requires
        spec_valid_signature(policy, sig),
        spec_valid_public_key(policy, key),
    ensures
        spec_unlock_satisfies_lock(
            policy,
            spec_assemble_script_sig(policy, sig, key),
            spec_assemble_witness(policy, sig, key),
            spec_lock_script(policy, key),
        ),
{
    match policy {
        SpendPolicy::LegacyKeyHash => {
            assert(spec_legacy_script_sig(sig, key) == spec_assemble_script_sig(policy, sig, key));
        },
        SpendPolicy::TaprootScriptPath => {
            assert(spec_control_block(key) == spec_assemble_witness(policy, sig, key)[2]);
        },
        SpendPolicy::TaprootKeyPath => {
            assert(spec_lock_script(policy, key) == spec_lock_script(policy, key));
        },
    }
}

/// Signing one digest twice with the same key: both assembled unlocks
/// satisfy the original locking script, whether or not the two signatures
/// agree byte for byte.
pub proof fn lemma_two_signatures_both_unlock(
    policy: SpendPolicy,
    sig1: Seq<u8>,
    sig2: Seq<u8>,
    key: Seq<u8>,
)
    requires
        spec_valid_signature(policy, sig1),
        spec_valid_signature(policy, sig2),
        spec_valid_public_key(policy, key),
    ensures
        spec_unlock_satisfies_lock(
            policy,
            spec_assemble_script_sig(policy, sig1, key),
            spec_assemble_witness(policy, sig1, key),
            spec_lock_script(policy, key),
        ),
        spec_unlock_satisfies_lock(
            policy,
            spec_assemble_script_sig(policy, sig2, key),
            spec_assemble_witness(policy, sig2, key),
            spec_lock_script(policy, key),
        ),
{
    lemma_assembled_unlock_satisfies_lock(policy, sig1, key);
    lemma_assembled_unlock_satisfies_lock(policy, sig2, key);
}

/// Exec mirror of [`spec_valid_signature`].
pub fn check_signature(policy: SpendPolicy, sig: &Vec<u8>) -> (ok: bool)
    ensures
        ok == spec_valid_signature(policy, sig@),
{
    match policy {
        SpendPolicy::LegacyKeyHash => 8 <= sig.len() && sig.len() <= 72,
        SpendPolicy::TaprootScriptPath => sig.len() == 64,
        SpendPolicy::TaprootKeyPath => sig.len() == 64,
    }
}

/// Exec mirror of [`spec_valid_public_key`].
pub fn check_public_key(policy: SpendPolicy, key: &Vec<u8>) -> (ok: bool)
    ensures
        ok == spec_valid_public_key(policy, key@),
{
    match policy {
        SpendPolicy::LegacyKeyHash => key.len() == 33 && (key[0] == 2 || key[0] == 3),
        SpendPolicy::TaprootScriptPath => key.len() == 32,
        SpendPolicy::TaprootKeyPath => key.len() == 32,
    }
}

/// Appends a minimal data push.
fn push_data(out: &mut Vec<u8>, data: &Vec<u8>)
    requires
        data@.len() <= 75,
    ensures
        final(out)@ == old(out)@ + spec_push_data(data@),
{
    out.push(data.len() as u8);
    push_bytes(out, data);
    proof {
        assert(out@ =~= old(out)@ + spec_push_data(data@));
    }
}

/// Builds the locking script a key controls under a policy.
pub fn lock_script(policy: SpendPolicy, key: &Vec<u8>) -> (script: Vec<u8>)
    requires
        spec_valid_public_key(policy, key@),
    ensures
        script@ == spec_lock_script(policy, key@),
{
    let mut script: Vec<u8> = Vec::new();
    match policy {
        SpendPolicy::LegacyKeyHash => {
            script.push(118);
            script.push(169);
            push_data(&mut script, key);
            script.push(136);
            script.push(172);
        },
        SpendPolicy::TaprootScriptPath => {
            script.push(81);
            script.push(32);
            push_bytes(&mut script, key);
        },
        SpendPolicy::TaprootKeyPath => {
            script.push(81);
            script.push(32);
            push_bytes(&mut script, key);
        },
    }
    proof {
        assert(script@ =~= spec_lock_script(policy, key@));
    }
    script
}

/// Builds the taproot leaf script the wallet commits to for a key.
pub fn leaf_script(key: &Vec<u8>) -> (script: Vec<u8>)
    requires
        key@.len() <= 75,
    ensures
        script@ == spec_leaf_script(key@),
{
    let mut script: Vec<u8> = Vec::new();
    push_data(&mut script, key);
    script.push(172);
    proof {
        assert(script@ =~= spec_leaf_script(key@));
    }
    script
}

/// Builds the control block revealed on a script-path spend.
pub fn control_block(key: &Vec<u8>) -> (block: Vec<u8>)
    ensures
        block@ == spec_control_block(key@),
{
    let mut block: Vec<u8> = Vec::new();
    block.push(LEAF_VERSION);
    push_bytes(&mut block, key);
    proof {
        assert(block@ =~= spec_control_block(key@));
    }
    block
}

/// Serialized core of one input as the digests commit to it: the outpoint,
/// the spent value and the sequence number, never the unlocking data.
pub open spec fn spec_ser_input_core(txin: TxIn) -> Seq<u8> {
    spec_u64_le(txin.outpoint.txid@.len() as u64) + txin.outpoint.txid@ + spec_u32_le(
        txin.outpoint.vout,
    ) + spec_u64_le(txin.value) + spec_u32_le(txin.sequence)
}

/// Serialized cores of a sequence of inputs, in order.
pub open spec fn spec_ser_inputs_core(s: Seq<TxIn>) -> Seq<u8>
    decreases s.len(),
{
    if s.len() == 0 {
        Seq::empty()
    } else {
        spec_ser_inputs_core(s.drop_last()) + spec_ser_input_core(s.last())
    }
}

/// The byte sequence an input must be signed over, by policy.
///
/// A legacy digest commits to this input's outpoint and value, the previous
/// locking script, all outputs, and the sighash flag. Both taproot digests
/// commit to the whole transaction and the input's position; the
/// script-path digest additionally binds the committed leaf script and its
/// leaf version.
pub open spec fn spec_sighash(
    policy: SpendPolicy,
    tx: Transaction,
    index: int,
    key: Seq<u8>,
) -> Seq<u8> {
    match policy {
        SpendPolicy::LegacyKeyHash => seq![1u8] + spec_u32_le(tx.version) + spec_ser_input_core(
            tx.inputs@[index],
        ) + spec_u64_le(spec_lock_script(policy, key).len() as u64) + spec_lock_script(policy, key)
            + spec_ser_outputs(tx.outputs@) + spec_u32_le(tx.lock_time) + seq![SIGHASH_ALL],
        SpendPolicy::TaprootKeyPath => seq![2u8] + spec_u32_le(tx.version) + spec_ser_inputs_core(
            tx.inputs@,
        ) + spec_ser_outputs(tx.outputs@) + spec_u32_le(tx.lock_time) + spec_u64_le(index as u64),
        SpendPolicy::TaprootScriptPath => seq![3u8] + spec_u32_le(tx.version)
            + spec_ser_inputs_core(tx.inputs@) + spec_ser_outputs(tx.outputs@) + spec_u32_le(
            tx.lock_time,
        ) + spec_u64_le(index as u64) + seq![LEAF_VERSION] + spec_u64_le(
            spec_leaf_script(key).len() as u64,
        ) + spec_leaf_script(key),
    }
}

/// Appends the serialized core of one input.
fn push_ser_input_core(out: &mut Vec<u8>, txin: &TxIn)
    ensures
        final(out)@ == old(out)@ + spec_ser_input_core(*txin),
{
    push_u64_le(out, txin.outpoint.txid.len() as u64);
    push_bytes(out, &txin.outpoint.txid);
    push_u32_le(out, txin.outpoint.vout);
    push_u64_le(out, txin.value);
    push_u32_le(out, txin.sequence);
    proof {
        assert(out@ =~= old(out)@ + spec_ser_input_core(*txin));
    }
}

/// Appends the serialized cores of all inputs, in order.
fn push_ser_inputs_core(out: &mut Vec<u8>, inputs: &Vec<TxIn>)
    ensures
        final(out)@ == old(out)@ + spec_ser_inputs_core(inputs@),
{
    let ghost start = out@;
    let mut i: usize = 0;
    while i < inputs.len()
        invariant
            i <= inputs@.len(),
            out@ == start + spec_ser_inputs_core(inputs@.subrange(0, i as int)),
        decreases inputs@.len() - i,
    {
        push_ser_input_core(out, &inputs[i]);
        proof {
            let sub1 = inputs@.subrange(0, i + 1);
            assert(sub1.drop_last() =~= inputs@.subrange(0, i as int));
            assert(sub1.last() == inputs@[i as int]);
            assert(out@ =~= start + spec_ser_inputs_core(sub1));
        }
        i = i + 1;
    }
    proof {
        assert(inputs@.subrange(0, inputs@.len() as int) =~= inputs@);
    }
}

/// Computes the digest the input at `index` must be signed over under the
/// given policy, with the signing key the wallet spends with. A pure
/// function of the transaction, the position, the policy and the key.
pub fn compute_sighash(
    tx: &Transaction,
    index: usize,
    policy: SpendPolicy,
    key: &Vec<u8>,
) -> (digest: Vec<u8>)
    requires
        index < tx.inputs@.len(),
        spec_valid_public_key(policy, key@),
    ensures
        digest@ == spec_sighash(policy, *tx, index as int, key@),
{
    let mut out: Vec<u8> = Vec::new();
    match policy {
        SpendPolicy::LegacyKeyHash => {
            out.push(1u8);
            push_u32_le(&mut out, tx.version);
            push_ser_input_core(&mut out, &tx.inputs[index]);
            let lock = lock_script(policy, key);
            push_u64_le(&mut out, lock.len() as u64);
            push_bytes(&mut out, &lock);
            push_ser_outputs(&mut out, &tx.outputs);
            push_u32_le(&mut out, tx.lock_time);
            out.push(SIGHASH_ALL);
        },
        SpendPolicy::TaprootKeyPath => {
            out.push(2u8);
            push_u32_le(&mut out, tx.version);
            push_ser_inputs_core(&mut out, &tx.inputs);
            push_ser_outputs(&mut out, &tx.outputs);
            push_u32_le(&mut out, tx.lock_time);
            push_u64_le(&mut out, index as u64);
        },
        SpendPolicy::TaprootScriptPath => {
            out.push(3u8);
            push_u32_le(&mut out, tx.version);
            push_ser_inputs_core(&mut out, &tx.inputs);
            push_ser_outputs(&mut out, &tx.outputs);
            push_u32_le(&mut out, tx.lock_time);
            push_u64_le(&mut out, index as u64);
            out.push(LEAF_VERSION);
            let leaf = leaf_script(key);
            push_u64_le(&mut out, leaf.len() as u64);
            push_bytes(&mut out, &leaf);
        },
    }
    proof {
        assert(out@ =~= spec_sighash(policy, *tx, index as int, key@));
    }
    out
}

/// The witness stack as mathematical sequences.
pub open spec fn spec_witness_view(w: Seq<Vec<u8>>) -> Seq<Seq<u8>> {
    w.map_values(|v: Vec<u8>| v@)
}

/// Assembles the unlocking script and witness stack around a signature.
pub fn assemble_unlock(policy: SpendPolicy, sig: &Vec<u8>, key: &Vec<u8>) -> (unlock: (
    Vec<u8>,
    Vec<Vec<u8>>,
))
    requires
        spec_valid_signature(policy, sig@),
        spec_valid_public_key(policy, key@),
    ensures
        unlock.0@ == spec_assemble_script_sig(policy, sig@, key@),
        spec_witness_view(unlock.1@) == spec_assemble_witness(policy, sig@, key@),
{
    match policy {
        SpendPolicy::LegacyKeyHash => {
            let mut script_sig: Vec<u8> = Vec::new();
            script_sig.push((sig.len() + 1) as u8);
            push_bytes(&mut script_sig, sig);
            script_sig.push(SIGHASH_ALL);
            script_sig.push(key.len() as u8);
            push_bytes(&mut script_sig, key);
            let witness: Vec<Vec<u8>> = Vec::new();
            proof {
                assert(script_sig@ =~= spec_legacy_script_sig(sig@, key@));
                assert(spec_witness_view(witness@) =~= spec_assemble_witness(policy, sig@, key@));
            }
            (script_sig, witness)
        },
        SpendPolicy::TaprootKeyPath => {
            let mut witness: Vec<Vec<u8>> = Vec::new();
            witness.push(clone_bytes(sig));
            proof {
                assert(spec_witness_view(witness@) =~= seq![sig@]);
            }
            (Vec::new(), witness)
        },
        SpendPolicy::TaprootScriptPath => {
            let mut witness: Vec<Vec<u8>> = Vec::new();
            witness.push(clone_bytes(sig));
            witness.push(leaf_script(key));
            witness.push(control_block(key));
            proof {
                assert(spec_witness_view(witness@) =~= seq![
                    sig@,
                    spec_leaf_script(key@),
                    spec_control_block(key@),
                ]);
            }
            (Vec::new(), witness)
        },
    }
}

/// Checks the signature and key that came back from the signing service and
/// installs the assembled unlocking data at one input, in place.
///
/// Fails with `SigningServiceError` exactly when the signature bytes are
/// malformed for the policy, and with `InvalidPublicKey` exactly when the
/// signature is fine but the key cannot be parsed; the transaction is left
/// untouched on failure. On success only the unlocking data of the input at
/// `index` changes, and it satisfies the locking script of the signing key.
pub fn apply_signature(
    tx: &mut Transaction,
    index: usize,
    policy: SpendPolicy,
    sig: &Vec<u8>,
    key: &Vec<u8>,
) -> (result: Result<(), WalletError>)
    requires
        index < old(tx).inputs@.len(),
    ensures
        result is Err <==> !(spec_valid_signature(policy, sig@) && spec_valid_public_key(
            policy,
            key@,
        )),
        match result {
            Ok(_) => {
                &&& final(tx).version == old(tx).version
                &&& final(tx).lock_time == old(tx).lock_time
                &&& final(tx).outputs == old(tx).outputs
                &&& final(tx).inputs@.len() == old(tx).inputs@.len()
                &&& forall|j: int|
                    0 <= j < old(tx).inputs@.len() && j != index ==> final(tx).inputs@[j] == old(
                        tx,
                    ).inputs@[j]
                &&& final(tx).inputs@[index as int].outpoint == old(tx).inputs@[index as int].outpoint
                &&& final(tx).inputs@[index as int].value == old(tx).inputs@[index as int].value
                &&& final(tx).inputs@[index as int].sequence == old(tx).inputs@[index as int].sequence
                &&& final(tx).inputs@[index as int].script_sig@ == spec_assemble_script_sig(
                    policy,
                    sig@,
                    key@,
                )
                &&& spec_witness_view(final(tx).inputs@[index as int].witness@)
                    == spec_assemble_witness(policy, sig@, key@)
                &&& spec_unlock_satisfies_lock(
                    policy,
                    final(tx).inputs@[index as int].script_sig@,
                    spec_witness_view(final(tx).inputs@[index as int].witness@),
                    spec_lock_script(policy, key@),
                )
            },
            Err(e) => {
                &&& *final(tx) == *old(tx)
                &&& (e == WalletError::SigningServiceError <==> !spec_valid_signature(policy, sig@))
                &&& (e == WalletError::InvalidPublicKey <==> (spec_valid_signature(policy, sig@)
                    && !spec_valid_public_key(policy, key@)))
            },
        },
{
    if !check_signature(policy, sig) {
        return Err(WalletError::SigningServiceError);
    }
    if !check_public_key(policy, key) {
        return Err(WalletError::InvalidPublicKey);
    }
    let (script_sig, witness) = assemble_unlock(policy, sig, key);
    let mut input = tx.inputs.remove(index);
    input.script_sig = script_sig;
    input.witness = witness;
    let ghost updated = input;
    tx.inputs.insert(index, input);
    proof {
        assert(tx.inputs@ =~= old(tx).inputs@.update(index as int, updated));
        lemma_assembled_unlock_satisfies_lock(policy, sig@, key@);
    }
    Ok(())
}

} // verus!
