//! The listing's sort criteria: by path, by size, by modification time,
//! and a verified insertion sort over them.

use vstd::prelude::*;

use crate::file_explorer::FileEntry;
use crate::text::{lemma_str_le_total, lemma_str_le_trans, spec_str_le, str_chars, str_le};

verus! {

/// What a listing can be ordered by.
#[derive(Clone, Copy, PartialEq, Eq, Structural, Debug)]
pub enum SortCriterion {
    Name,
    Size,
    ModifiedDate,
}

/// One selectable sort: its display name and its criterion.
#[derive(Clone, Copy, Debug)]
pub struct SortEntry {
    pub name: &'static str,
    pub criterion: SortCriterion,
}

/// The selectable sorts, in the order the options dialog offers them.
pub fn get_sort_entries() -> (r: Vec<SortEntry>)
    ensures
        r@.len() == 3,
        r@[0].criterion == SortCriterion::Name && r@[0].name@ == "Name"@,
        r@[1].criterion == SortCriterion::Size && r@[1].name@ == "Size"@,
        r@[2].criterion == SortCriterion::ModifiedDate && r@[2].name@ == "Modified Date"@,
{
    vec![
        SortEntry { name: "Name", criterion: SortCriterion::Name },
        SortEntry { name: "Size", criterion: SortCriterion::Size },
        SortEntry { name: "Modified Date", criterion: SortCriterion::ModifiedDate },
    ]
}

/// `a` comes no later than `b` under the criterion: paths ascending by
/// code point, sizes and modification times descending, newest and
/// largest first.
pub open spec fn entry_le(c: SortCriterion, a: FileEntry, b: FileEntry) -> bool {
    match c {
        SortCriterion::Name => spec_str_le(a.path@, b.path@),
        SortCriterion::Size => b.size <= a.size,
        SortCriterion::ModifiedDate => b.modified <= a.modified,
    }
}

/// Every pair of entries is ordered one way or the other.
pub proof fn lemma_entry_le_total(c: SortCriterion, a: FileEntry, b: FileEntry)
    ensures
        entry_le(c, a, b) || entry_le(c, b, a),
{
    if c is Name {
        lemma_str_le_total(a.path@, b.path@);
    }
}

/// The entry order is transitive.
pub proof fn lemma_entry_le_trans(c: SortCriterion, a: FileEntry, b: FileEntry, d: FileEntry)
    requires
        entry_le(c, a, b),
        entry_le(c, b, d),
    ensures
        entry_le(c, a, d),
{
    if c is Name {
        lemma_str_le_trans(a.path@, b.path@, d.path@);
    }
}

/// The listing is ordered under the criterion.
pub open spec fn spec_entries_sorted(c: SortCriterion, s: Seq<FileEntry>) -> bool {
    forall|i: int, j: int| 0 <= i < j < s.len() ==> entry_le(c, s[i], s[j])
}

fn entry_le_exec(c: SortCriterion, a: &FileEntry, b: &FileEntry) -> (r: bool)
    ensures
        r == entry_le(c, *a, *b),
{
    match c {
        SortCriterion::Name => {
            let av = str_chars(a.path.as_str());
            let bv = str_chars(b.path.as_str());
            str_le(&av, &bv)
        },
        SortCriterion::Size => b.size <= a.size,
        SortCriterion::ModifiedDate => b.modified <= a.modified,
    }
}

/// Inserting anywhere adds one occurrence, as pushing at the end does.
proof fn lemma_to_multiset_insert<A>(s: Seq<A>, j: int, e: A)
    requires
        0 <= j <= s.len(),
    ensures
        s.insert(j, e).to_multiset() == s.to_multiset().insert(e),
{
    broadcast use vstd::seq_lib::group_to_multiset_ensures;
    broadcast use vstd::multiset::group_multiset_axioms;

    let t = s.insert(j, e);
    assert(t.remove(j) =~= s);
    assert(t[j] == e);
    assert(s.to_multiset() == t.to_multiset().remove(e));
    assert(t.contains(e));
    assert(t.to_multiset().count(e) > 0);
    assert(t.to_multiset() =~= s.to_multiset().insert(e));
}

/// Reorders the listing under the criterion: afterwards it is sorted
/// and holds exactly the entries it held before.
pub fn sort_entries_by(criterion: SortCriterion, entries: &mut Vec<FileEntry>)
    ensures
        spec_entries_sorted(criterion, final(entries)@),
        final(entries)@.to_multiset() == old(entries)@.to_multiset(),
        final(entries)@.len() == old(entries)@.len(),
{
    broadcast use vstd::seq_lib::group_to_multiset_ensures;

    let n = entries.len();
    let mut i: usize = 1;
    while i < n
        invariant
            n == entries@.len(),
            1 <= i || n == 0,
            i <= n || n == 0,
            forall|a: int, b: int| 0 <= a < b < i ==> entry_le(criterion, entries@[a], entries@[b]),
            entries@.to_multiset() == old(entries)@.to_multiset(),
        decreases n - i,
    {
        let mut j: usize = 0;
        loop
            invariant
                n == entries@.len(),
                i < n,
                j <= i,
                forall|k: int| 0 <= k < j ==> entry_le(criterion, entries@[k], entries@[i as int]),
            ensures
                j <= i,
                forall|k: int| 0 <= k < j ==> entry_le(criterion, entries@[k], entries@[i as int]),
                j < i ==> !entry_le(criterion, entries@[j as int], entries@[i as int]),
            decreases i - j,
        {
            if j == i {
                break;
            }
            if !entry_le_exec(criterion, &entries[j], &entries[i]) {
                break;
            }
            j = j + 1;
        }
        proof {
            if j < i {
                lemma_entry_le_total(criterion, entries@[j as int], entries@[i as int]);
            }
            assert forall|k: int| j <= k < i implies entry_le(
                criterion,
                entries@[i as int],
                entries@[k],
            ) by {
                if k > j {
                    lemma_entry_le_trans(
                        criterion,
                        entries@[i as int],
                        entries@[j as int],
                        entries@[k],
                    );
                }
            }
        }
        let ghost pre = entries@;
        let e = entries.remove(i);
        let ghost mid = entries@;
        entries.insert(j, e);
        proof {
            broadcast use vstd::multiset::group_multiset_axioms;

            vstd::seq_lib::to_multiset_remove(pre, i as int);
            lemma_to_multiset_insert(mid, j as int, e);
            assert(pre.contains(e)) by {
                assert(pre[i as int] == e);
            }
            pre.to_multiset_ensures();
            assert(pre.to_multiset().count(e) > 0);
            assert(entries@.to_multiset() =~= pre.to_multiset());
            assert(entries@.to_multiset() == old(entries)@.to_multiset());
            assert forall|a: int, b: int| 0 <= a < b < i + 1 implies entry_le(
                criterion,
                entries@[a],
                entries@[b],
            ) by {
                assert(forall|k: int|
                    0 <= k < n - 1 ==> mid[k] == (if k < i {
                        pre[k]
                    } else {
                        pre[k + 1]
                    }));
                assert(forall|k: int|
                    0 <= k <= n - 1 ==> entries@[k] == (if k < j {
                        mid[k]
                    } else if k == j {
                        e
                    } else {
                        mid[k - 1]
                    }));
            }
        }
        i = i + 1;
    }
}

/// Sorts the listing by path, ascending; always reports success.
pub fn sort_by_name(entries: &mut Vec<FileEntry>) -> (r: bool)
    ensures
        r,
        spec_entries_sorted(SortCriterion::Name, final(entries)@),
        final(entries)@.to_multiset() == old(entries)@.to_multiset(),
{
    sort_entries_by(SortCriterion::Name, entries);
    true
}

/// Sorts the listing by size, largest first; always reports success.
pub fn sort_by_size(entries: &mut Vec<FileEntry>) -> (r: bool)
    ensures
        r,
        spec_entries_sorted(SortCriterion::Size, final(entries)@),
        final(entries)@.to_multiset() == old(entries)@.to_multiset(),
{
    sort_entries_by(SortCriterion::Size, entries);
    true
}

/// Sorts the listing by modification time, newest first; always reports
/// success.
pub fn sort_by_modified_date(entries: &mut Vec<FileEntry>) -> (r: bool)
    ensures
        r,
        spec_entries_sorted(SortCriterion::ModifiedDate, final(entries)@),
        final(entries)@.to_multiset() == old(entries)@.to_multiset(),
{
    sort_entries_by(SortCriterion::ModifiedDate, entries);
    true
}

} // verus!
