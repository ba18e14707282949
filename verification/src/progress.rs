//! The progress tracker: which items were collected and which enemies were
//! beaten, by map and cell, and what of a map's placements is therefore live.

use crate::placement::distinct_cells;
use crate::stats::Position;
use vstd::prelude::*;

verus! {

/// A set of cells of maps, each told by the index of its map and its position.
pub struct ProgressSet {
    entries: Vec<(usize, Position)>,
}

impl View for ProgressSet {
    type V = Set<(usize, Position)>;

    closed spec fn view(&self) -> Set<(usize, Position)> {
        self.entries@.to_set()
    }
}

impl ProgressSet {
    /// No cell is recorded twice.
    #[verifier::type_invariant]
    spec fn no_repeats(&self) -> bool {
        self.entries@.no_duplicates()
    }

    /// The empty set.
    pub fn new() -> (set: ProgressSet)
        ensures
            set@ == Set::<(usize, Position)>::empty(),
    {
        ProgressSet { entries: Vec::new() }
    }

    /// Whether the cell `key` is in the set.
    pub fn contains(&self, key: &(usize, Position)) -> (found: bool)
        ensures
            found == self@.contains(*key),
    {
        let mut i: usize = 0;
        while i < self.entries.len()
            invariant
                i <= self.entries@.len(),
                forall|j: int| 0 <= j < i ==> self.entries@[j] != *key,
            decreases self.entries@.len() - i,
        {
            let entry = self.entries[i];
            if entry.0 == key.0 && entry.1 == key.1 {
                return true;
            }
            i = i + 1;
        }
        false
    }

    /// Adds the cell `key` to the set. Adding a cell that is there already changes
    /// nothing. Returns whether the cell is new.
    pub fn insert(&mut self, key: (usize, Position)) -> (fresh: bool)
        ensures
            final(self)@ == old(self)@.insert(key),
            fresh == !old(self)@.contains(key),
    {
        proof {
            use_type_invariant(&*self);
        }
        if self.contains(&key) {
            false
        } else {
            let mut entries: Vec<(usize, Position)> = Vec::new();
            std::mem::swap(&mut entries, &mut self.entries);
            let ghost before = entries@;
            entries.push(key);
            proof {
                before.lemma_push_to_set_commute(key);
            }
            self.entries = entries;
            true
        }
    }

    /// The number of cells in the set.
    pub fn len(&self) -> (count: usize)
        ensures
            self@.finite(),
            count == self@.len(),
    {
        proof {
            use_type_invariant(self);
            self.entries@.unique_seq_to_set();
            vstd::seq_lib::seq_to_set_is_finite(self.entries@);
        }
        self.entries.len()
    }

    /// Whether the set is empty.
    pub fn is_empty(&self) -> (empty: bool)
        ensures
            empty == (self@ == Set::<(usize, Position)>::empty()),
    {
        let empty = self.entries.len() == 0;
        proof {
            if empty {
                assert(self@ =~= Set::<(usize, Position)>::empty());
            } else {
                assert(self@.contains(self.entries@[0]));
            }
        }
        empty
    }

    /// Empties the set.
    pub fn clear(&mut self)
        ensures
            final(self)@ == Set::<(usize, Position)>::empty(),
    {
        self.entries = Vec::new();
    }

    /// The cells of the set, each of them once.
    pub fn to_vec(&self) -> (cells: Vec<(usize, Position)>)
        ensures
            cells@.to_set() == self@,
            cells@.no_duplicates(),
    {
        proof {
            use_type_invariant(self);
        }
        let mut cells: Vec<(usize, Position)> = Vec::new();
        let mut i: usize = 0;
        while i < self.entries.len()
            invariant
                i <= self.entries@.len(),
                cells@ == self.entries@.take(i as int),
            decreases self.entries@.len() - i,
        {
            cells.push(self.entries[i]);
            i = i + 1;
        }
        assert(cells@ =~= self.entries@);
        cells
    }
}

/// The items that the player has collected, by map and cell.
pub struct CollectedItems {
    pub items: ProgressSet,
}

/// The enemies that the player has beaten, by map and cell.
pub struct DefeatedEnemies {
    pub enemies: ProgressSet,
}

impl CollectedItems {
    /// Nothing collected yet.
    pub fn new() -> (collected: CollectedItems)
        ensures
            collected.items@ == Set::<(usize, Position)>::empty(),
    {
        CollectedItems { items: ProgressSet::new() }
    }
}

impl DefeatedEnemies {
    /// Nobody beaten yet.
    pub fn new() -> (defeated: DefeatedEnemies)
        ensures
            defeated.enemies@ == Set::<(usize, Position)>::empty(),
    {
        DefeatedEnemies { enemies: ProgressSet::new() }
    }
}

impl Default for ProgressSet {
    /// The empty set.
    fn default() -> (set: ProgressSet)
        ensures
            set@ == Set::<(usize, Position)>::empty(),
    {
        ProgressSet::new()
    }
}

impl Default for CollectedItems {
    /// Nothing collected yet.
    fn default() -> (collected: CollectedItems)
        ensures
            collected.items@ == Set::<(usize, Position)>::empty(),
    {
        CollectedItems::new()
    }
}

impl Default for DefeatedEnemies {
    /// Nobody beaten yet.
    fn default() -> (defeated: DefeatedEnemies)
        ensures
            defeated.enemies@ == Set::<(usize, Position)>::empty(),
    {
        DefeatedEnemies::new()
    }
}

/// The test that an entry of map `map_index` passes while its cell is not in
/// `done`.
pub open spec fn is_live<K>(map_index: usize, done: Set<(usize, Position)>) -> spec_fn(
    (Position, K),
) -> bool {
    |entry: (Position, K)| !done.contains((map_index, entry.0))
}

/// The live part of the placements of map `map_index`: those whose cell is not in
/// `done`, in their order.
pub open spec fn live_of<K>(
    placements: Seq<(Position, K)>,
    map_index: usize,
    done: Set<(usize, Position)>,
) -> Seq<(Position, K)> {
    placements.filter(is_live(map_index, done))
}

/// Computes the live part of the placements of a map.
pub fn spawn_live<K: Copy>(
    placements: &Vec<(Position, K)>,
    map_index: usize,
    done: &ProgressSet,
) -> (live: Vec<(Position, K)>)
    ensures
        live@ == live_of(placements@, map_index, done@),
{
    let mut live: Vec<(Position, K)> = Vec::new();
    let mut i: usize = 0;
    proof {
        reveal(Seq::filter);
    }
    while i < placements.len()
        invariant
            i <= placements@.len(),
            live@ == live_of(placements@.take(i as int), map_index, done@),
        decreases placements@.len() - i,
    {
        let entry = placements[i];
        proof {
            placements@.lemma_take_succ_push(i as int);
            placements@.take(i as int).lemma_filter_push(entry, is_live(map_index, done@));
        }
        if !done.contains(&(map_index, entry.0)) {
            live.push(entry);
        }
        i = i + 1;
    }
    assert(placements@.take(i as int) =~= placements@);
    live
}

/// A stricter test keeps no more entries.
pub proof fn lemma_filter_len_le<A>(s: Seq<A>, keep: spec_fn(A) -> bool, fewer: spec_fn(A) -> bool)
    requires
        forall|a: A| #[trigger] fewer(a) ==> keep(a),
    ensures
        s.filter(fewer).len() <= s.filter(keep).len(),
    decreases s.len(),
{
    reveal(Seq::filter);
    if s.len() > 0 {
        lemma_filter_len_le(s.drop_last(), keep, fewer);
    }
}

/// A stricter test that turns away an entry which the other keeps, keeps fewer
/// entries.
pub proof fn lemma_filter_len_lt<A>(
    s: Seq<A>,
    keep: spec_fn(A) -> bool,
    fewer: spec_fn(A) -> bool,
    i: int,
)
    requires
        forall|a: A| #[trigger] fewer(a) ==> keep(a),
        0 <= i < s.len(),
        keep(s[i]),
        !fewer(s[i]),
    ensures
        s.filter(fewer).len() < s.filter(keep).len(),
    decreases s.len(),
{
    reveal(Seq::filter);
    if i == s.len() - 1 {
        lemma_filter_len_le(s.drop_last(), keep, fewer);
    } else {
        lemma_filter_len_lt(s.drop_last(), keep, fewer, i);
    }
}

/// Recording one more cell never makes more placements live.
pub proof fn lemma_live_shrinks<K>(
    placements: Seq<(Position, K)>,
    map_index: usize,
    done: Set<(usize, Position)>,
    key: (usize, Position),
)
    ensures
        live_of(placements, map_index, done.insert(key)).len() <= live_of(
            placements,
            map_index,
            done,
        ).len(),
{
    lemma_filter_len_le(
        placements,
        is_live(map_index, done),
        is_live(map_index, done.insert(key)),
    );
}

/// Recording the cell of a live placement makes fewer placements live.
pub proof fn lemma_live_shrinks_strictly<K>(
    placements: Seq<(Position, K)>,
    map_index: usize,
    done: Set<(usize, Position)>,
    i: int,
)
    requires
        0 <= i < placements.len(),
        !done.contains((map_index, placements[i].0)),
    ensures
        live_of(placements, map_index, done.insert((map_index, placements[i].0))).len() < live_of(
            placements,
            map_index,
            done,
        ).len(),
{
    lemma_filter_len_lt(
        placements,
        is_live(map_index, done),
        is_live(map_index, done.insert((map_index, placements[i].0))),
        i,
    );
}

/// While nothing is recorded, every placement is live.
pub proof fn lemma_all_live<K>(placements: Seq<(Position, K)>, map_index: usize)
    ensures
        live_of(placements, map_index, Set::empty()) == placements,
    decreases placements.len(),
{
    reveal(Seq::filter);
    if placements.len() > 0 {
        lemma_all_live(placements.drop_last(), map_index);
    }
}

/// What is live: the placements whose cell is not recorded, and nothing else.
pub proof fn lemma_live_entries<K>(
    placements: Seq<(Position, K)>,
    map_index: usize,
    done: Set<(usize, Position)>,
)
    ensures
        forall|entry: (Position, K)|
            #[trigger] live_of(placements, map_index, done).contains(entry) <==> (
            placements.contains(entry) && !done.contains((map_index, entry.0))),
    decreases placements.len(),
{
    reveal(Seq::filter);
    let live = live_of(placements, map_index, done);
    if placements.len() > 0 {
        let rest = placements.drop_last();
        lemma_live_entries(rest, map_index, done);
        let live_rest = live_of(rest, map_index, done);
        assert forall|entry: (Position, K)| #[trigger]
            live.contains(entry) <==> (placements.contains(entry) && !done.contains(
                (map_index, entry.0),
            )) by {
            if live.contains(entry) {
                let k = choose|k: int| 0 <= k < live.len() && live[k] == entry;
                if k < live_rest.len() {
                    assert(live_rest.contains(entry));
                }
            }
            if placements.contains(entry) && !done.contains((map_index, entry.0)) {
                let m = choose|m: int| 0 <= m < placements.len() && placements[m] == entry;
                if m < rest.len() {
                    assert(rest[m] == entry);
                    assert(live_rest.contains(entry));
                }
            }
        }
    }
}

/// Two tests that agree on every entry of a sequence keep the same entries of it.
pub proof fn lemma_filter_agree<A>(s: Seq<A>, one: spec_fn(A) -> bool, other: spec_fn(A) -> bool)
    requires
        forall|i: int| 0 <= i < s.len() ==> one(#[trigger] s[i]) == other(s[i]),
    ensures
        s.filter(one) == s.filter(other),
    decreases s.len(),
{
    reveal(Seq::filter);
    if s.len() > 0 {
        lemma_filter_agree(s.drop_last(), one, other);
    }
}

/// Where no two placements share a cell, recording the cell of a live placement
/// takes exactly that placement out of the live ones, and leaves the others in
/// their order.
pub proof fn lemma_live_without<K>(
    placements: Seq<(Position, K)>,
    map_index: usize,
    done: Set<(usize, Position)>,
    j: int,
)
    requires
        distinct_cells(placements),
        0 <= j < live_of(placements, map_index, done).len(),
    ensures
        live_of(
            placements,
            map_index,
            done.insert((map_index, live_of(placements, map_index, done)[j].0)),
        ) == live_of(placements, map_index, done).remove(j),
    decreases placements.len(),
{
    reveal(Seq::filter);
    let cell = live_of(placements, map_index, done)[j].0;
    let rest = placements.drop_last();
    let live_rest = live_of(rest, map_index, done);
    assert(distinct_cells(rest));
    if j < live_rest.len() {
        // The placement recorded is among the others: the last one stays as it was.
        lemma_live_entries(rest, map_index, done);
        assert(live_rest.contains(live_rest[j]));
        lemma_live_without(rest, map_index, done, j);
    } else {
        // The placement recorded is the last one: the others stay as they were.
        lemma_filter_agree(
            rest,
            is_live::<K>(map_index, done.insert((map_index, cell))),
            is_live::<K>(map_index, done),
        );
    }
}

/// The number of live placements on the first `n` maps, where `placements` lists
/// the placements of each map.
pub open spec fn live_count<K>(
    placements: Seq<Seq<(Position, K)>>,
    done: Set<(usize, Position)>,
    n: int,
) -> nat
    decreases n,
{
    if n <= 0 {
        0
    } else {
        live_count(placements, done, n - 1) + live_of(
            placements[n - 1],
            (n - 1) as usize,
            done,
        ).len()
    }
}

/// Recording one more cell never makes more placements live, on any number of maps.
pub proof fn lemma_live_count_shrinks<K>(
    placements: Seq<Seq<(Position, K)>>,
    done: Set<(usize, Position)>,
    key: (usize, Position),
    n: int,
)
    ensures
        live_count(placements, done.insert(key), n) <= live_count(placements, done, n),
    decreases n,
{
    if n > 0 {
        lemma_live_count_shrinks(placements, done, key, n - 1);
        lemma_live_shrinks(placements[n - 1], (n - 1) as usize, done, key);
    }
}

/// Recording the cell of a live placement of one of the first `n` maps makes fewer
/// placements live on those maps.
pub proof fn lemma_live_count_shrinks_strictly<K>(
    placements: Seq<Seq<(Position, K)>>,
    done: Set<(usize, Position)>,
    map_index: usize,
    i: int,
    n: int,
)
    requires
        map_index < n <= placements.len(),
        0 <= i < placements[map_index as int].len(),
        !done.contains((map_index, placements[map_index as int][i].0)),
    ensures
        live_count(placements, done.insert((map_index, placements[map_index as int][i].0)), n)
            < live_count(placements, done, n),
    decreases n,
{
    let key = (map_index, placements[map_index as int][i].0);
    if n - 1 == map_index {
        lemma_live_count_shrinks(placements, done, key, n - 1);
        lemma_live_shrinks_strictly(placements[n - 1], map_index, done, i);
    } else {
        lemma_live_count_shrinks_strictly(placements, done, map_index, i, n - 1);
        lemma_live_shrinks(placements[n - 1], (n - 1) as usize, done, key);
    }
}

} // verus!
