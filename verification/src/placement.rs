//! Lists of placements: what stands on which cell of a map. Items, enemies and
//! connections are all kept as such lists.

use crate::stats::Position;
use vstd::prelude::*;

verus! {

/// Whether some entry of the list stands on the cell `position`.
pub open spec fn occupied<K>(entries: Seq<(Position, K)>, position: Position) -> bool {
    exists|i: int| 0 <= i < entries.len() && (#[trigger] entries[i]).0 == position
}

/// Whether entry `i` stands on the cell `position` and no earlier entry does.
pub open spec fn is_first_at<K>(entries: Seq<(Position, K)>, position: Position, i: int) -> bool {
    &&& 0 <= i < entries.len()
    &&& entries[i].0 == position
    &&& forall|j: int| 0 <= j < i ==> (#[trigger] entries[j]).0 != position
}

/// The index of the first entry that stands on the cell `position`, where there
/// is one.
pub open spec fn first_at<K>(entries: Seq<(Position, K)>, position: Position) -> int {
    choose|i: int| is_first_at(entries, position, i)
}

/// What stands on the cell `position`: the first entry for that cell, if any.
pub open spec fn entry_at<K>(entries: Seq<(Position, K)>, position: Position) -> Option<K> {
    if occupied(entries, position) {
        Some(entries[first_at(entries, position)].1)
    } else {
        None
    }
}

/// Whether no two entries of the list stand on the same cell.
pub open spec fn distinct_cells<K>(entries: Seq<(Position, K)>) -> bool {
    forall|i: int, j: int|
        0 <= i < j < entries.len() ==> (#[trigger] entries[i]).0 != (#[trigger] entries[j]).0
}

/// On an occupied cell exactly one entry is the first, and `first_at` names it.
pub proof fn lemma_first_at<K>(entries: Seq<(Position, K)>, position: Position, i: int)
    requires
        is_first_at(entries, position, i),
    ensures
        occupied(entries, position),
        first_at(entries, position) == i,
        entry_at(entries, position) == Some(entries[i].1),
{
}

/// An occupied cell has a first entry.
pub proof fn lemma_occupied_has_first<K>(entries: Seq<(Position, K)>, position: Position)
    requires
        occupied(entries, position),
    ensures
        is_first_at(entries, position, first_at(entries, position)),
{
    let k = choose|i: int| 0 <= i < entries.len() && (#[trigger] entries[i]).0 == position;
    lemma_first_before(entries, position, k);
}

/// If entry `k` stands on the cell, some entry at or before `k` is the first there.
proof fn lemma_first_before<K>(entries: Seq<(Position, K)>, position: Position, k: int)
    requires
        0 <= k < entries.len(),
        entries[k].0 == position,
    ensures
        is_first_at(entries, position, first_at(entries, position)),
    decreases k,
{
    if exists|j: int| 0 <= j < k && (#[trigger] entries[j]).0 == position {
        let j = choose|j: int| 0 <= j < k && (#[trigger] entries[j]).0 == position;
        lemma_first_before(entries, position, j);
    } else {
        assert(is_first_at(entries, position, k));
    }
}

/// Looks for the first entry that stands on the cell `position`.
pub fn find_at<K>(entries: &Vec<(Position, K)>, position: Position) -> (found: Option<usize>)
    ensures
        match found {
            Some(i) => is_first_at(entries@, position, i as int) && i == first_at(
                entries@,
                position,
            ),
            None => !occupied(entries@, position),
        },
        found is Some <==> occupied(entries@, position),
{
    let mut i: usize = 0;
    while i < entries.len()
        invariant
            i <= entries@.len(),
            forall|j: int| 0 <= j < i ==> (#[trigger] entries@[j]).0 != position,
        decreases entries@.len() - i,
    {
        if entries[i].0 == position {
            proof {
                lemma_first_at(entries@, position, i as int);
            }
            return Some(i);
        }
        i = i + 1;
    }
    None
}

/// Whether no two entries of the list stand on the same cell.
pub fn has_distinct_cells<K>(entries: &Vec<(Position, K)>) -> (distinct: bool)
    ensures
        distinct == distinct_cells(entries@),
{
    let mut j: usize = 0;
    while j < entries.len()
        invariant
            j <= entries@.len(),
            forall|a: int, b: int|
                0 <= a < b < j ==> (#[trigger] entries@[a]).0 != (#[trigger] entries@[b]).0,
        decreases entries@.len() - j,
    {
        let mut i: usize = 0;
        while i < j
            invariant
                i <= j < entries@.len(),
                forall|a: int| 0 <= a < i ==> (#[trigger] entries@[a]).0 != entries@[j as int].0,
            decreases j - i,
        {
            if entries[i].0 == entries[j].0 {
                return false;
            }
            i = i + 1;
        }
        j = j + 1;
    }
    true
}

} // verus!
