//! Laws of the store's conflict clean-up: removing duplicates leaves every
//! group of conflicts, and with unique ids exactly one conflict per group.
use crate::store::{is_duplicate, ranks_before, same_group, ConflictRecord};
use crate::text::seq_lt;
use vstd::prelude::*;

verus! {

proof fn lemma_text_order_irreflexive(a: Seq<char>)
    ensures
        !seq_lt(a, a),
    decreases a.len(),
{
    if a.len() > 0 {
        lemma_text_order_irreflexive(a.drop_first());
    }
}

proof fn lemma_text_order_transitive(a: Seq<char>, b: Seq<char>, c: Seq<char>)
    requires
        seq_lt(a, b),
        seq_lt(b, c),
    ensures
        seq_lt(a, c),
    decreases a.len(),
{
    if a.len() > 0 && b.len() > 0 && c.len() > 0 {
        if a[0] == b[0] && b[0] == c[0] {
            lemma_text_order_transitive(a.drop_first(), b.drop_first(), c.drop_first());
        }
    }
}

proof fn lemma_text_order_total(a: Seq<char>, b: Seq<char>)
    requires
        a != b,
    ensures
        seq_lt(a, b) || seq_lt(b, a),
    decreases a.len(),
{
    if a.len() == 0 && b.len() == 0 {
        assert(a =~= b);
    } else if a.len() > 0 && b.len() > 0 {
        if a[0] == b[0] {
            if a.drop_first() == b.drop_first() {
                assert(a.drop_first().len() == a.len() - 1);
                assert(b.drop_first().len() == b.len() - 1);
                assert(a =~= b) by {
                    assert forall|i: int| 0 <= i < a.len() implies a[i] == b[i] by {
                        if i > 0 {
                            assert(a[i] == a.drop_first()[i - 1]);
                            assert(b[i] == b.drop_first()[i - 1]);
                        }
                    }
                }
            }
            lemma_text_order_total(a.drop_first(), b.drop_first());
        } else {
            vstd::utf8::char_u32_cast(a[0], a[0] as u32);
            vstd::utf8::char_u32_cast(b[0], b[0] as u32);
        }
    }
}

proof fn lemma_ranks_before_strict(a: ConflictRecord, b: ConflictRecord, c: ConflictRecord)
    ensures
        !ranks_before(a, a),
        ranks_before(a, b) && ranks_before(b, c) ==> ranks_before(a, c),
{
    lemma_text_order_irreflexive(a.created_at@);
    lemma_text_order_irreflexive(a.id@);
    if ranks_before(a, b) && ranks_before(b, c) {
        if seq_lt(a.created_at@, b.created_at@) && seq_lt(b.created_at@, c.created_at@) {
            lemma_text_order_transitive(a.created_at@, b.created_at@, c.created_at@);
        } else if seq_lt(a.id@, b.id@) && seq_lt(b.id@, c.id@) {
            lemma_text_order_transitive(a.id@, b.id@, c.id@);
        }
    }
}

/// The first-recorded conflict of `rows[i]`'s group among the first `j`
/// rows (or `rows[i]` itself when none of them is earlier).
proof fn lemma_first_of_group(rows: Seq<ConflictRecord>, i: int, j: int) -> (m: int)
    requires
        0 <= i < rows.len(),
        0 <= j <= rows.len(),
    ensures
        0 <= m < rows.len(),
        same_group(rows[m], rows[i]),
        forall|k: int| 0 <= k < j && same_group(rows[k], rows[i]) ==> !ranks_before(rows[k], rows[m]),
    decreases j,
{
    if j == 0 {
        i
    } else {
        let p = lemma_first_of_group(rows, i, j - 1);
        if same_group(rows[j - 1], rows[i]) && ranks_before(rows[j - 1], rows[p]) {
            assert forall|k: int| 0 <= k < j && same_group(rows[k], rows[i]) implies !ranks_before(
                rows[k],
                rows[j - 1],
            ) by {
                lemma_ranks_before_strict(rows[k], rows[j - 1], rows[p]);
            }
            j - 1
        } else {
            p
        }
    }
}

/// Clearing duplicates never clears a whole group: every conflict's group
/// keeps a member that is not a duplicate.
pub proof fn law_dedupe_keeps_each_group(rows: Seq<ConflictRecord>, i: int)
    requires
        0 <= i < rows.len(),
    ensures
        exists|m: int| 0 <= m < rows.len() && same_group(#[trigger] rows[m], rows[i]) && !is_duplicate(rows[m], rows),
{
    let m = lemma_first_of_group(rows, i, rows.len() as int);
    assert(!is_duplicate(rows[m], rows));
}

/// With unique ids, clearing duplicates leaves exactly one conflict per
/// group: two kept conflicts of one group are the same conflict.
pub proof fn law_dedupe_leaves_one_per_group(rows: Seq<ConflictRecord>, i: int, k: int)
    requires
        forall|a: int, b: int| 0 <= a < rows.len() && 0 <= b < rows.len() && a != b ==> rows[a].id@ != rows[b].id@,
        0 <= i < rows.len(),
        0 <= k < rows.len(),
        same_group(rows[i], rows[k]),
        !is_duplicate(rows[i], rows),
        !is_duplicate(rows[k], rows),
    ensures
        i == k,
{
    if i != k {
        if rows[i].created_at@ != rows[k].created_at@ {
            lemma_text_order_total(rows[i].created_at@, rows[k].created_at@);
        } else {
            lemma_text_order_total(rows[i].id@, rows[k].id@);
        }
        assert(same_group(rows[k], rows[i]));
        assert(ranks_before(rows[i], rows[k]) || ranks_before(rows[k], rows[i]));
    }
}

} // verus!
