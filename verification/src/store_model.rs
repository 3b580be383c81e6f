//! A model of what the pruning statement does to a table's rows, precise
//! at the store's interface: every row whose designated timestamp lies
//! before the cutoff is removed, every other row survives, and the count
//! of removed rows is reported.  The executor's idempotence is a theorem
//! of this model: pruning what already survived a cutoff removes nothing.

use crate::timestamp::Timestamp;
use vstd::prelude::*;

verus! {

/// The rows that survive pruning at a cutoff, in their stored order.
pub open spec fn kept_rows(rows: Seq<u64>, cutoff: int) -> Seq<u64>
    decreases rows.len(),
{
    if rows.len() == 0 {
        Seq::empty()
    } else if rows[0] >= cutoff {
        seq![rows[0]] + kept_rows(rows.drop_first(), cutoff)
    } else {
        kept_rows(rows.drop_first(), cutoff)
    }
}

/// How many rows pruning at a cutoff removes.
pub open spec fn dropped_count(rows: Seq<u64>, cutoff: int) -> int {
    rows.len() - kept_rows(rows, cutoff).len()
}

/// Appending one row keeps or drops exactly that row.
proof fn lemma_kept_rows_snoc(rows: Seq<u64>, row: u64, cutoff: int)
    ensures
        kept_rows(rows.push(row), cutoff) == if row >= cutoff {
            kept_rows(rows, cutoff).push(row)
        } else {
            kept_rows(rows, cutoff)
        },
    decreases rows.len(),
{
    reveal_with_fuel(kept_rows, 3);
    if rows.len() == 0 {
        assert(rows.push(row).drop_first() =~= Seq::<u64>::empty());
        if row >= cutoff {
            assert(kept_rows(rows.push(row), cutoff) =~= kept_rows(rows, cutoff).push(row));
        }
    } else {
        assert(rows.push(row).drop_first() =~= rows.drop_first().push(row));
        lemma_kept_rows_snoc(rows.drop_first(), row, cutoff);
        if row >= cutoff {
            assert(kept_rows(rows.push(row), cutoff) =~= kept_rows(rows, cutoff).push(row));
        }
    }
}

/// Every surviving row lies at or after the cutoff.
pub proof fn lemma_kept_rows_bound(rows: Seq<u64>, cutoff: int)
    ensures
        forall|i: int|
            0 <= i < kept_rows(rows, cutoff).len() ==> kept_rows(rows, cutoff)[i] >= cutoff,
        kept_rows(rows, cutoff).len() <= rows.len(),
    decreases rows.len(),
{
    if rows.len() > 0 {
        lemma_kept_rows_bound(rows.drop_first(), cutoff);
    }
}

/// Pruning rows that all lie at or after the cutoff removes nothing.
proof fn lemma_kept_rows_all_kept(rows: Seq<u64>, cutoff: int)
    requires
        forall|i: int| 0 <= i < rows.len() ==> rows[i] >= cutoff,
    ensures
        kept_rows(rows, cutoff) == rows,
    decreases rows.len(),
{
    if rows.len() == 0 {
        assert(kept_rows(rows, cutoff) =~= rows);
    } else {
        assert(forall|i: int|
            0 <= i < rows.drop_first().len() ==> #[trigger] rows.drop_first()[i] >= cutoff);
        lemma_kept_rows_all_kept(rows.drop_first(), cutoff);
        assert(kept_rows(rows, cutoff) =~= rows);
    }
}

/// Idempotence of the executor at the store: after a successful run, a
/// second run whose cutoff is the same — or earlier, as with a smaller
/// amount at the same instant — finds nothing older left and removes zero
/// rows.
pub proof fn lemma_prune_idempotent(rows: Seq<u64>, first: int, second: int)
    requires
        second <= first,
    ensures
        kept_rows(kept_rows(rows, first), second) == kept_rows(rows, first),
        dropped_count(kept_rows(rows, first), second) == 0,
{
    lemma_kept_rows_bound(rows, first);
    lemma_kept_rows_all_kept(kept_rows(rows, first), second);
}

/// Apply the pruning statement's semantics to a modelled table: the rows
/// that survive the cutoff, and the count of rows removed.
pub fn prune_rows(rows: &Vec<u64>, cutoff: &Timestamp) -> (r: (Vec<u64>, u64))
    ensures
        r.0@ == kept_rows(rows@, cutoff.secs_spec() as int),
        r.1 as int == dropped_count(rows@, cutoff.secs_spec() as int),
{
    let bound = cutoff.epoch_seconds();
    let mut kept: Vec<u64> = Vec::new();
    let mut removed: u64 = 0;
    let mut i: usize = 0;
    proof {
        assert(rows@.subrange(0, 0) =~= Seq::<u64>::empty());
    }
    while i < rows.len()
        invariant
            i <= rows@.len(),
            bound == cutoff.secs_spec(),
            kept@ == kept_rows(rows@.subrange(0, i as int), bound as int),
            removed as int == dropped_count(rows@.subrange(0, i as int), bound as int),
            removed as int <= i as int,
        decreases rows@.len() - i,
    {
        proof {
            assert(rows@.subrange(0, i as int + 1) =~= rows@.subrange(0, i as int).push(
                rows@[i as int],
            ));
            lemma_kept_rows_snoc(rows@.subrange(0, i as int), rows@[i as int], bound as int);
            lemma_kept_rows_bound(rows@.subrange(0, i as int), bound as int);
        }
        let row = rows[i];
        if row >= bound {
            kept.push(row);
        } else {
            removed = removed + 1;
        }
        i = i + 1;
    }
    proof {
        assert(rows@.subrange(0, rows@.len() as int) =~= rows@);
    }
    (kept, removed)
}

} // verus!
