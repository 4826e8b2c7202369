//! Unspent transaction outputs as the Bitcoin gateway reports them, and the
//! arithmetic over their values that coin selection and transaction building
//! rest on.

use vstd::prelude::*;

verus! {

/// Identifies one output of one transaction: the transaction id and the
/// output index within it.
pub struct Outpoint {
    pub txid: Vec<u8>,
    pub vout: u32,
}

/// An unspent output: where it sits, its value in satoshi, and the height of
/// the block that confirmed it. Immutable once observed.
pub struct Utxo {
    pub outpoint: Outpoint,
    pub value: u64,
    pub height: u32,
}

/// One page of the gateway's UTXO listing for an address.
pub struct GetUtxosResponse {
    pub utxos: Vec<Utxo>,
    pub tip_block_hash: Vec<u8>,
    pub tip_height: u32,
    pub next_page: Option<Vec<u8>>,
}

/// A fee rate in millisatoshi per byte, as the gateway's percentile samples
/// carry it.
#[derive(Clone, Copy, Debug, PartialEq, Eq, Structural)]
pub struct MillisatoshiPerByte(pub u64);

/// Total value in satoshi of a sequence of UTXOs, as an unbounded integer.
pub open spec fn sum_values(s: Seq<Utxo>) -> int
    decreases s.len(),
{
    if s.len() == 0 {
        0
    } else {
        sum_values(s.drop_last()) + s.last().value
    }
}

/// The total value of a sequence of UTXOs is never negative.
pub proof fn lemma_sum_values_nonneg(s: Seq<Utxo>)
    ensures
        sum_values(s) >= 0,
    decreases s.len(),
{
    if s.len() > 0 {
        lemma_sum_values_nonneg(s.drop_last());
    }
}

/// Removing the UTXO at index `i` lowers the total by exactly its value.
pub proof fn lemma_sum_values_remove(s: Seq<Utxo>, i: int)
    requires
        0 <= i < s.len(),
    ensures
        sum_values(s.remove(i)) == sum_values(s) - s[i].value,
    decreases s.len(),
{
    if i == s.len() - 1 {
        assert(s.remove(i) =~= s.drop_last());
    } else {
        lemma_sum_values_remove(s.drop_last(), i);
        assert(s.remove(i).drop_last() =~= s.drop_last().remove(i));
        assert(s.remove(i).last() == s.last());
    }
}

/// The total value of two sequences laid end to end is the sum of their
/// totals.
pub proof fn lemma_sum_values_concat(a: Seq<Utxo>, b: Seq<Utxo>)
    ensures
        sum_values(a + b) == sum_values(a) + sum_values(b),
    decreases b.len(),
{
    if b.len() == 0 {
        assert(a + b =~= a);
    } else {
        lemma_sum_values_concat(a, b.drop_last());
        assert((a + b).drop_last() =~= a + b.drop_last());
        assert((a + b).last() == b.last());
    }
}

} // verus!
