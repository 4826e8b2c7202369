//! Coin selection: choose a subset of UTXOs that covers a target amount.
//!
//! The algorithm is largest-first greedy and deterministic: repeatedly take
//! the most valuable remaining UTXO until the running total meets or exceeds
//! the target, and return as soon as the threshold is crossed. No UTXO is
//! ever split, and nothing is random. The result is not minimal-waste and
//! not privacy-preserving; it is simply the smallest largest-first prefix
//! that covers the target.

use vstd::prelude::*;

use crate::types::WalletError;
use crate::utxo::{lemma_sum_values_nonneg, lemma_sum_values_remove, sum_values, Utxo};

verus! {

broadcast use vstd::seq_lib::group_to_multiset_ensures, vstd::multiset::group_multiset_axioms;

/// Values never increase along the sequence.
pub open spec fn sorted_by_value_desc(s: Seq<Utxo>) -> bool {
    forall|i: int, j: int| 0 <= i <= j < s.len() ==> s[i].value >= s[j].value
}

/// Greedy largest-first coin selection.
///
/// Consumes the observed UTXO set and returns the selected subset in
/// descending value order, or `InsufficientFunds` exactly when the whole set
/// cannot cover the target. The selection stops as soon as the target is
/// crossed: without its last entry it would still fall short, and everything
/// left unselected is no more valuable than the least valuable selection.
pub fn select_utxos(utxos: Vec<Utxo>, target: u64) -> (result: Result<Vec<Utxo>, WalletError>)
    requires
        sum_values(utxos@) <= u64::MAX,
    ensures
        result is Err <==> sum_values(utxos@) < target,
        match result {
            Ok(selected) => {
                &&& sum_values(selected@) >= target
                &&& sum_values(selected@) <= sum_values(utxos@)
                &&& selected@.len() <= utxos@.len()
                &&& selected@.to_multiset().subset_of(utxos@.to_multiset())
                &&& sorted_by_value_desc(selected@)
                &&& (selected@.len() > 0 ==> sum_values(selected@.drop_last()) < target)
                &&& forall|u: Utxo|
                    utxos@.to_multiset().count(u) > selected@.to_multiset().count(u)
                        && selected@.len() > 0 ==> u.value <= selected@.last().value
            },
            Err(e) => e == WalletError::InsufficientFunds,
        },
{
    let mut pool = utxos;
    let ghost orig = pool@;
    let mut selected: Vec<Utxo> = Vec::new();
    let mut total: u64 = 0;

    while total < target
        invariant
            orig == utxos@,
            selected@.len() + pool@.len() == orig.len(),
            total == sum_values(selected@),
            sum_values(selected@) + sum_values(pool@) == sum_values(orig),
            sum_values(orig) <= u64::MAX,
            selected@.to_multiset().add(pool@.to_multiset()) =~= orig.to_multiset(),
            sorted_by_value_desc(selected@),
            selected@.len() > 0 ==> sum_values(selected@.drop_last()) < target,
            forall|j: int|
                0 <= j < pool@.len() ==> selected@.len() > 0 ==> pool@[j].value
                    <= selected@.last().value,
        decreases pool@.len(),
    {
        if pool.len() == 0 {
            proof {
                lemma_sum_values_nonneg(selected@);
            }
            return Err(WalletError::InsufficientFunds);
        }

        // Find the most valuable remaining UTXO.
        let mut best: usize = 0;
        let mut i: usize = 1;
        while i < pool.len()
            invariant
                pool@.len() > 0,
                best < pool@.len(),
                1 <= i <= pool@.len(),
                forall|j: int| 0 <= j < i ==> pool@[j].value <= pool@[best as int].value,
            decreases pool@.len() - i,
        {
            if pool[i].value > pool[best].value {
                best = i;
            }
            i = i + 1;
        }

        let ghost pool_before = pool@;
        let ghost selected_before = selected@;
        let u = pool.remove(best);
        proof {
            lemma_sum_values_remove(pool_before, best as int);
            lemma_sum_values_nonneg(pool@);
            lemma_sum_values_nonneg(selected@);
            assert(pool_before[best as int] == u);
            assert(pool_before.contains(u));
        }
        total = total + u.value;
        selected.push(u);
        proof {
            assert(selected@.drop_last() =~= selected_before);
            assert(pool@.to_multiset() =~= pool_before.to_multiset().remove(u));
            assert(selected@.to_multiset() =~= selected_before.to_multiset().insert(u));
            assert(selected@.to_multiset().add(pool@.to_multiset()) =~= orig.to_multiset());
            assert(forall|j: int|
                0 <= j < pool@.len() ==> #[trigger] pool@[j].value <= u.value) by {
                assert(forall|j: int|
                    0 <= j < pool@.len() ==> pool@[j] == pool_before[
                        if j < best {
                            j
                        } else {
                            j + 1
                        }
                    ]);
            }
        }
    }

    proof {
        lemma_sum_values_nonneg(pool@);
        assert forall|u: Utxo|
            orig.to_multiset().count(u) > selected@.to_multiset().count(u) && selected@.len()
                > 0 implies u.value <= selected@.last().value by {
            assert(orig.to_multiset().count(u) == selected@.to_multiset().count(u)
                + pool@.to_multiset().count(u));
            assert(pool@.to_multiset().count(u) > 0);
            assert(pool@.contains(u));
            let j = choose|j: int| 0 <= j < pool@.len() && pool@[j] == u;
            assert(pool@[j].value <= selected@.last().value);
        }
        assert(selected@.to_multiset().subset_of(orig.to_multiset())) by {
            assert(forall|u: Utxo|
                #[trigger] orig.to_multiset().count(u) == selected@.to_multiset().count(u)
                    + pool@.to_multiset().count(u));
        }
    }
    Ok(selected)
}

} // verus!
