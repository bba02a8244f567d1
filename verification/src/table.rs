use vstd::prelude::*;

use crate::rule::{spec_chain_specificity, StyleRule};
use crate::specificity::{
    lemma_outranks_total, lemma_outranks_transitive, spec_outranks, Specificity,
};

verus! {

/// One rule of the table while it is being built: the rule, its chain's
/// specificity, and the position it was declared at.
pub struct TableEntry {
    pub rule: StyleRule,
    pub specificity: Specificity,
    pub decl: usize,
}

/// The table order: higher specificity first, and among equal
/// specificities the later declaration first, so that a scan from the
/// front meets the cascade winner before any rule it beats.
pub open spec fn spec_key_greater(a: TableEntry, b: TableEntry) -> bool {
    spec_outranks(a.specificity, b.specificity) || (a.specificity == b.specificity && a.decl
        > b.decl)
}

/// The entries are in strictly descending table order.
pub open spec fn spec_entries_sorted(w: Seq<TableEntry>) -> bool {
    forall|i: int, j: int|
        0 <= i < j < w.len() ==> spec_key_greater(#[trigger] w[i], #[trigger] w[j])
}

/// Some entry carries declaration position `d`.
pub open spec fn spec_decl_present(w: Seq<TableEntry>, d: int) -> bool {
    exists|i: int| 0 <= i < w.len() && (#[trigger] w[i].decl) == d
}

/// The entries are exactly the rules declared at positions `lo` and
/// later, each with its own specificity, every position once.
pub open spec fn spec_entries_correspond(
    w: Seq<TableEntry>,
    input: Seq<StyleRule>,
    lo: int,
) -> bool {
    &&& forall|i: int|
        0 <= i < w.len() ==> lo <= (#[trigger] w[i].decl) < input.len() && w[i].rule == input[w[i].decl as int]
            && w[i].specificity == spec_chain_specificity(input[w[i].decl as int].selectors@)
    &&& forall|i: int, j: int| 0 <= i < j < w.len() ==> (#[trigger] w[i].decl) != (#[trigger] w[j].decl)
    &&& forall|d: int| lo <= d < input.len() ==> spec_decl_present(w, d)
}

/// The table order is total over entries with distinct declaration
/// positions, and transitive.
proof fn lemma_key_greater_total(a: TableEntry, b: TableEntry)
    requires
        a.decl != b.decl,
    ensures
        spec_key_greater(a, b) || spec_key_greater(b, a),
        !(spec_key_greater(a, b) && spec_key_greater(b, a)),
{
    lemma_outranks_total(a.specificity, b.specificity);
}

proof fn lemma_key_greater_trans(a: TableEntry, b: TableEntry, c: TableEntry)
    requires
        spec_key_greater(a, b),
        spec_key_greater(b, c),
    ensures
        spec_key_greater(a, c),
{
    if spec_outranks(a.specificity, b.specificity) && spec_outranks(b.specificity, c.specificity) {
        lemma_outranks_transitive(a.specificity, b.specificity, c.specificity);
    }
}

/// Whether `a` stands before `b` in table order.
fn key_greater(a: &TableEntry, b: &TableEntry) -> (r: bool)
    ensures
        r == spec_key_greater(*a, *b),
{
    if a.specificity.outranks(&b.specificity) {
        true
    } else if a.specificity == b.specificity {
        a.decl > b.decl
    } else {
        false
    }
}

/// Insert `entry` at its place in a table kept in strictly descending
/// order; its declaration position must be fresh.
fn sorted_insert(w: &mut Vec<TableEntry>, entry: TableEntry)
    requires
        spec_entries_sorted(old(w)@),
        forall|i: int| 0 <= i < old(w)@.len() ==> (#[trigger] old(w)@[i].decl) != entry.decl,
    ensures
        final(w)@.len() == old(w)@.len() + 1,
        exists|pos: int|
            0 <= pos <= old(w)@.len() && final(w)@ == #[trigger] old(w)@.insert(pos, entry),
        spec_entries_sorted(final(w)@),
    decreases 0int,
{
    let ghost w0 = w@;
    let mut pos: usize = 0;
    while pos < w.len()
        invariant
            w@ == w0,
            pos <= w@.len(),
            forall|i: int| 0 <= i < pos ==> spec_key_greater(#[trigger] w@[i], entry),
        ensures
            w@ == w0,
            pos <= w@.len(),
            forall|i: int| 0 <= i < pos ==> spec_key_greater(#[trigger] w@[i], entry),
            pos == w@.len() || !spec_key_greater(w@[pos as int], entry),
        decreases w@.len() - pos,
    {
        if !key_greater(&w[pos], &entry) {
            break;
        }
        pos = pos + 1;
    }
    proof {
        if (pos as int) < w0.len() {
            lemma_key_greater_total(w0[pos as int], entry);
        }
    }
    w.insert(pos, entry);
    proof {
        w0.insert_ensures(pos as int, entry);
        let neww = w@;
        assert forall|i: int, j: int| 0 <= i < j < neww.len() implies spec_key_greater(
            #[trigger] neww[i],
            #[trigger] neww[j],
        ) by {
            if j < pos {
                assert(neww[i] == w0[i] && neww[j] == w0[j]);
            } else if i < pos && j == pos {
                assert(neww[i] == w0[i] && neww[j] == entry);
            } else if i < pos && j > pos {
                assert(neww[i] == w0[i] && neww[j] == w0[j - 1]);
            } else if i == pos && j > pos {
                assert(neww[i] == entry && neww[j] == w0[j - 1]);
                lemma_key_greater_total(w0[j - 1], entry);
                if j - 1 > pos {
                    assert(spec_key_greater(w0[pos as int], w0[j - 1]));
                }
                if spec_key_greater(w0[j - 1], entry) {
                    if j - 1 == pos {
                        assert(false);
                    } else {
                        lemma_key_greater_trans(w0[pos as int], w0[j - 1], entry);
                        assert(false);
                    }
                }
            } else {
                assert(neww[i] == w0[i - 1] && neww[j] == w0[j - 1]);
            }
        }
    }
}

/// Order the declared rules into a table: strictly descending by
/// specificity, later declarations first among ties. Every rule appears
/// exactly once, under its declaration position.
pub fn build_table(input: Vec<StyleRule>) -> (w: Vec<TableEntry>)
    ensures
        w@.len() == input@.len(),
        spec_entries_sorted(w@),
        spec_entries_correspond(w@, input@, 0),
{
    let ghost input_seq = input@;
    let mut input = input;
    let mut w: Vec<TableEntry> = Vec::new();
    while input.len() > 0
        invariant
            input@ == input_seq.subrange(0, input@.len() as int),
            input@.len() <= input_seq.len(),
            w@.len() + input@.len() == input_seq.len(),
            spec_entries_sorted(w@),
            spec_entries_correspond(w@, input_seq, input@.len() as int),
        decreases input@.len(),
    {
        let ghost pre_w = w@;
        let ghost k = input@.len() - 1;
        let decl = input.len() - 1;
        let rule = match input.pop() {
            Some(r) => r,
            None => {
                proof {
                    assert(false);
                }
                StyleRule::new()
            },
        };
        proof {
            assert(rule == input_seq.subrange(0, k + 1)[k]);
            assert(input_seq.subrange(0, k + 1)[k] == input_seq[k]);
            assert(input@ =~= input_seq.subrange(0, k));
        }
        let s = rule.specificity();
        let entry = TableEntry { rule, specificity: s, decl };
        proof {
            assert forall|i: int| 0 <= i < pre_w.len() implies (#[trigger] pre_w[i].decl)
                != entry.decl by {}
        }
        sorted_insert(&mut w, entry);
        proof {
            let pos = choose|pos: int|
                0 <= pos <= pre_w.len() && w@ == #[trigger] pre_w.insert(pos, entry);
            pre_w.insert_ensures(pos, entry);
            let neww = w@;
            assert forall|i: int|
                0 <= i < neww.len() implies k <= (#[trigger] neww[i].decl) < input_seq.len()
                && neww[i].rule == input_seq[neww[i].decl as int] && neww[i].specificity
                == spec_chain_specificity(input_seq[neww[i].decl as int].selectors@) by {
                if i < pos {
                    assert(neww[i] == pre_w[i]);
                } else if i == pos {
                    assert(neww[i] == entry);
                } else {
                    assert(neww[i] == pre_w[i - 1]);
                }
            }
            assert forall|i: int, j: int| 0 <= i < j < neww.len() implies (#[trigger] neww[i].decl)
                != (#[trigger] neww[j].decl) by {
                if i != pos && j != pos {
                    let oi = if i < pos {
                        i
                    } else {
                        i - 1
                    };
                    let oj = if j < pos {
                        j
                    } else {
                        j - 1
                    };
                    assert(neww[i] == pre_w[oi] && neww[j] == pre_w[oj]);
                } else if i == pos {
                    assert(neww[i] == entry && neww[j] == pre_w[j - 1]);
                } else {
                    assert(neww[j] == entry && neww[i] == pre_w[i]);
                }
            }
            assert forall|d: int| k <= d < input_seq.len() implies spec_decl_present(neww, d) by {
                if d == k {
                    assert(neww[pos].decl == d);
                } else {
                    assert(spec_decl_present(pre_w, d));
                    let wit = choose|wit: int|
                        0 <= wit < pre_w.len() && (#[trigger] pre_w[wit].decl) == d;
                    if wit < pos {
                        assert(neww[wit].decl == d);
                    } else {
                        assert(neww[wit + 1].decl == d);
                    }
                }
            }
        }
    }
    proof {
        assert(input_seq.subrange(0, 0) =~= Seq::<StyleRule>::empty());
    }
    w
}

} // verus!
