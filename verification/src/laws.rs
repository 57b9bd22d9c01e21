//! The store's global laws, each proved from the state model and the
//! operations' contracts.

use vstd::prelude::*;
use crate::store::{store_step, Ledger};

verus! {

/// Counter monotonicity: across any chain of successful stores — whatever
/// order the host serialized them in — the registry counter grows by exactly
/// the number of stores. `chain[0]` is the state before the first store and
/// each later element the state after one more successful store.
pub proof fn lemma_counter_monotonic(chain: Seq<Ledger>)
    requires
        chain.len() >= 1,
        chain[0].initialized(),
        forall|i: int| 0 <= i < chain.len() - 1 ==> #[trigger] store_step(chain[i], chain[i + 1]),
    ensures
        chain.last().total() == chain[0].total() + chain.len() - 1,
    decreases chain.len(),
{
    if chain.len() > 1 {
        let front = chain.drop_last();
        assert forall|i: int| 0 <= i < front.len() - 1 implies #[trigger] store_step(
            front[i],
            front[i + 1],
        ) by {
            assert(store_step(chain[i], chain[i + 1]));
        }
        lemma_counter_monotonic(front);
        let k = chain.len() - 2;
        assert(store_step(chain[k], chain[k + 1]));
        assert(chain.last() == chain[k + 1]);
    }
}

/// Id uniqueness: in a well-formed ledger no two records hold the same id.
pub proof fn lemma_ids_unique(ledger: Ledger, i: int, j: int)
    requires
        ledger.wf(),
        0 <= i < ledger.entries@.len(),
        0 <= j < ledger.entries@.len(),
        i != j,
    ensures
        ledger.entries@[i].record.id != ledger.entries@[j].record.id,
{
    assert(ledger.entry_ok(i));
    assert(ledger.entry_ok(j));
}

/// Immutability: a successful store only appends, so every record that
/// existed before it is afterwards exactly what it was — no field of any
/// existing record changes.
pub proof fn lemma_records_immutable(pre: Ledger, post: Ledger, i: int)
    requires
        store_step(pre, post),
        0 <= i < pre.entries@.len(),
    ensures
        post.entries@[i] == pre.entries@[i],
        post.entries@[i].record == pre.entries@[i].record,
{
}

} // verus!
