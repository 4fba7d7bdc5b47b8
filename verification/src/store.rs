//! Pure updates to the in-memory saved-entry list. Reading the list from
//! disk and writing it back is the persistence layer's job; these functions
//! say exactly how the list itself changes.

use vstd::prelude::*;

use crate::domain::SavedDnsEntry;
use crate::text::{eq_ignore_case_view, str_eq, trimmed_view};

verus! {

/// No two entries share a trimmed name, compared without regard to ASCII
/// case.
pub open spec fn names_unique(entries: Seq<SavedDnsEntry>) -> bool {
    forall|i: int, j: int|
        0 <= i < entries.len() && 0 <= j < entries.len() && i != j ==> !eq_ignore_case_view(
            trimmed_view(#[trigger] entries[i].name@),
            trimmed_view(#[trigger] entries[j].name@),
        )
}

/// `entries` with every entry named exactly `name` removed, keeping the
/// order of the rest.
pub open spec fn without_name(entries: Seq<SavedDnsEntry>, name: Seq<char>) -> Seq<SavedDnsEntry> {
    entries.filter(|e: SavedDnsEntry| e.name@ != name)
}

/// Appends a validated entry to the saved list.
pub fn add_saved_dns(entries: &mut Vec<SavedDnsEntry>, entry: SavedDnsEntry)
    ensures
        final(entries)@ == old(entries)@.push(entry),
{
    entries.push(entry);
}

/// Removes every entry whose name is exactly `name` from the saved list,
/// keeping the order of the rest.
pub fn delete_saved_dns(entries: &mut Vec<SavedDnsEntry>, name: &str)
    ensures
        final(entries)@ == without_name(old(entries)@, name@),
{
    let ghost all = entries@;
    let mut kept: Vec<SavedDnsEntry> = Vec::new();
    let mut i: usize = 0;
    proof {
        reveal(Seq::filter);
        assert(all.take(0) =~= Seq::<SavedDnsEntry>::empty());
        assert(kept@ =~= without_name(all.take(0), name@));
    }
    while i < entries.len()
        invariant
            0 <= i <= all.len(),
            entries@ == all,
            kept@ == without_name(all.take(i as int), name@),
        decreases all.len() - i,
    {
        let keep = !str_eq(entries[i].name.as_str(), name);
        if keep {
            kept.push(entries[i].duplicate());
        }
        proof {
            reveal(Seq::filter);
            let t = all.take(i + 1);
            assert(t.drop_last() =~= all.take(i as int));
            assert(t.last() == all[i as int]);
            assert(without_name(t, name@) == if t.last().name@ != name@ {
                without_name(t.drop_last(), name@).push(t.last())
            } else {
                without_name(t.drop_last(), name@)
            });
        }
        i = i + 1;
    }
    proof {
        assert(all.take(all.len() as int) =~= all);
    }
    *entries = kept;
}

/// Appending an entry whose trimmed name is not yet taken keeps the names
/// unique: the invariant that saved names never collide is preserved by a
/// validated addition.
pub proof fn lemma_add_keeps_names_unique(entries: Seq<SavedDnsEntry>, entry: SavedDnsEntry)
    requires
        names_unique(entries),
        !crate::validate::name_taken(entries, trimmed_view(entry.name@)),
    ensures
        names_unique(entries.push(entry)),
{
    let out = entries.push(entry);
    assert forall|i: int, j: int|
        0 <= i < out.len() && 0 <= j < out.len() && i != j implies !eq_ignore_case_view(
        trimmed_view(#[trigger] out[i].name@),
        trimmed_view(#[trigger] out[j].name@),
    ) by {
        if i < entries.len() && j < entries.len() {
            assert(!eq_ignore_case_view(
                trimmed_view(entries[i].name@),
                trimmed_view(entries[j].name@),
            ));
        } else if i < entries.len() {
            assert(out[j] == entry);
            assert(!eq_ignore_case_view(
                trimmed_view(entries[i].name@),
                trimmed_view(entry.name@),
            ));
            lemma_eq_ignore_case_symmetric(
                trimmed_view(entries[i].name@),
                trimmed_view(entry.name@),
            );
        } else {
            assert(out[i] == entry);
            assert(!eq_ignore_case_view(
                trimmed_view(entries[j].name@),
                trimmed_view(entry.name@),
            ));
            lemma_eq_ignore_case_symmetric(
                trimmed_view(entries[j].name@),
                trimmed_view(entry.name@),
            );
        }
    }
}

/// Case-insensitive equality of character sequences is symmetric.
pub proof fn lemma_eq_ignore_case_symmetric(a: Seq<char>, b: Seq<char>)
    ensures
        eq_ignore_case_view(a, b) == eq_ignore_case_view(b, a),
{
}

/// Removing entries keeps the names unique: the uniqueness invariant is
/// preserved by deletion.
pub proof fn lemma_delete_keeps_names_unique(entries: Seq<SavedDnsEntry>, name: Seq<char>)
    requires
        names_unique(entries),
    ensures
        names_unique(without_name(entries, name)),
    decreases entries.len(),
{
    reveal(Seq::filter);
    if entries.len() > 0 {
        let head = entries.drop_last();
        assert(names_unique(head)) by {
            assert(forall|i: int| 0 <= i < head.len() ==> head[i] == entries[i]);
        }
        lemma_delete_keeps_names_unique(head, name);
        let sub = without_name(head, name);
        if entries.last().name@ != name {
            let out = sub.push(entries.last());
            assert(out == without_name(entries, name));
            assert forall|i: int, j: int|
                0 <= i < out.len() && 0 <= j < out.len() && i != j implies !eq_ignore_case_view(
                trimmed_view(#[trigger] out[i].name@),
                trimmed_view(#[trigger] out[j].name@),
            ) by {
                if i < sub.len() && j < sub.len() {
                    assert(!eq_ignore_case_view(
                        trimmed_view(sub[i].name@),
                        trimmed_view(sub[j].name@),
                    ));
                } else if i < sub.len() {
                    lemma_without_name_element_is_member(head, name, i);
                    let k = choose|k: int| 0 <= k < head.len() && head[k] == sub[i];
                    assert(!eq_ignore_case_view(
                        trimmed_view(entries[k].name@),
                        trimmed_view(entries[entries.len() - 1].name@),
                    ));
                } else {
                    lemma_without_name_element_is_member(head, name, j);
                    let k = choose|k: int| 0 <= k < head.len() && head[k] == sub[j];
                    assert(!eq_ignore_case_view(
                        trimmed_view(entries[entries.len() - 1].name@),
                        trimmed_view(entries[k].name@),
                    ));
                }
            }
        } else {
            assert(sub == without_name(entries, name));
        }
    } else {
        assert(without_name(entries, name) == entries);
    }
}

/// Every element left after a deletion occurs in the original list.
proof fn lemma_without_name_element_is_member(entries: Seq<SavedDnsEntry>, name: Seq<char>, i: int)
    requires
        0 <= i < without_name(entries, name).len(),
    ensures
        exists|k: int| 0 <= k < entries.len() && entries[k] == without_name(entries, name)[i],
    decreases entries.len(),
{
    reveal(Seq::filter);
    if entries.len() > 0 {
        let head = entries.drop_last();
        let sub = without_name(head, name);
        if entries.last().name@ != name && i == sub.len() {
            assert(entries[entries.len() - 1] == without_name(entries, name)[i]);
        } else {
            lemma_without_name_element_is_member(head, name, i);
            let k = choose|k: int| 0 <= k < head.len() && head[k] == without_name(head, name)[i];
            assert(entries[k] == without_name(entries, name)[i]);
        }
    }
}

} // verus!
