use vstd::prelude::*;
use crate::moves::ChessMove;
use crate::score::{
    from_table, from_table_spec, to_table, to_table_spec, valid_score, INFINITY, MAX_PLY,
};

verus! {

/// How a stored score relates to the true value of the position.
#[derive(PartialEq, Eq, Structural, Clone, Copy, Debug)]
pub enum Bound {
    /// The score is exact.
    Exact,
    /// The score is an upper bound: the search failed low.
    Alpha,
    /// The score is a lower bound: the search failed high.
    Beta,
}

/// A summary of one search of a position.
#[derive(PartialEq, Eq, Structural, Clone, Copy, Debug)]
pub struct Entry {
    pub key: u64,
    pub depth: i32,
    pub score: i32,
    pub bound: Bound,
    pub m: Option<ChessMove>,
}

/// Whether an entry's score settles a search of `depth` in the window (alpha, beta).
pub open spec fn valid_cutoff_spec(e: Entry, alpha: int, beta: int, depth: int) -> bool {
    e.depth >= depth && (e.bound == Bound::Exact || (e.bound == Bound::Beta && e.score >= beta)
        || (e.bound == Bound::Alpha && e.score <= alpha))
}

impl Entry {
    pub fn valid_cutoff(&self, alpha: i32, beta: i32, depth: i32) -> (r: bool)
        ensures
            r == valid_cutoff_spec(*self, alpha as int, beta as int, depth as int),
    {
        self.depth >= depth && (matches!(self.bound, Bound::Exact) || (matches!(
            self.bound,
            Bound::Beta
        ) && self.score >= beta) || (matches!(self.bound, Bound::Alpha) && self.score <= alpha))
    }
}

/// Slots per megabyte, counting 32 bytes to a slot.
pub const SLOTS_PER_MB: usize = 32768;

/// Largest table size, in megabytes.
pub const MAX_MB: usize = 4096;

/// A fixed number of slots; a position goes to slot `hash % capacity` and
/// always replaces what was there.
pub struct TranspositionTable {
    pub entries: Vec<Option<Entry>>,
}

/// Number of slots of a table of `mb` megabytes.
pub open spec fn capacity_for(mb: int) -> int {
    if mb == 0 {
        1
    } else {
        mb * SLOTS_PER_MB
    }
}

/// What the table holds for `hash`, as a stored entry.
pub open spec fn stored_at(slots: Seq<Option<Entry>>, hash: u64) -> Option<Entry> {
    match slots[(hash as int) % slots.len() as int] {
        Some(e) => if e.key == hash {
            Some(e)
        } else {
            None
        },
        None => None,
    }
}

/// An entry as a search at `ply` sees it: mate scores are taken back to the root.
pub open spec fn seen_at(e: Entry, ply: int) -> Entry {
    Entry { score: from_table_spec(e.score as int, ply) as i32, ..e }
}

impl TranspositionTable {
    /// Slots are present and every stored score came from a valid score.
    pub open spec fn wf(&self) -> bool {
        &&& self.entries@.len() > 0
        &&& forall|i: int|
            0 <= i < self.entries@.len() && #[trigger] self.entries@[i] is Some ==> -INFINITY
                - MAX_PLY < self.entries@[i]->0.score < INFINITY + MAX_PLY
    }

    pub open spec fn slot(&self, hash: u64) -> int {
        (hash as int) % (self.entries@.len() as int)
    }

    /// An empty table of about `mb` megabytes.
    pub fn new(mb: usize) -> (r: Self)
        requires
            mb <= MAX_MB,
        ensures
            r.wf(),
            r.entries@.len() == capacity_for(mb as int),
            forall|i: int| 0 <= i < r.entries@.len() ==> r.entries@[i] is None,
    {
        let n: usize = if mb == 0 {
            1
        } else {
            mb * SLOTS_PER_MB
        };
        let mut entries: Vec<Option<Entry>> = Vec::new();
        let mut i: usize = 0;
        while i < n
            invariant
                i <= n,
                entries@.len() == i,
                forall|j: int| 0 <= j < i ==> entries@[j] is None,
            decreases n - i,
        {
            entries.push(None);
            i = i + 1;
        }
        TranspositionTable { entries }
    }

    /// Empties every slot.
    pub fn clear(&mut self)
        requires
            old(self).wf(),
        ensures
            final(self).wf(),
            final(self).entries@.len() == old(self).entries@.len(),
            forall|i: int| 0 <= i < final(self).entries@.len() ==> final(self).entries@[i] is None,
    {
        let n = self.entries.len();
        let mut i: usize = 0;
        while i < n
            invariant
                i <= n,
                self.entries@.len() == n,
                n > 0,
                forall|j: int| 0 <= j < i ==> self.entries@[j] is None,
                forall|j: int|
                    0 <= j < n && #[trigger] self.entries@[j] is Some ==> -INFINITY - MAX_PLY
                        < self.entries@[j]->0.score < INFINITY + MAX_PLY,
            decreases n - i,
        {
            self.entries.set(i, None);
            i = i + 1;
        }
    }

    /// Replaces the table by an empty one of about `mb` megabytes.
    pub fn resize(&mut self, mb: usize)
        requires
            mb <= MAX_MB,
        ensures
            final(self).wf(),
            final(self).entries@.len() == capacity_for(mb as int),
            forall|i: int| 0 <= i < final(self).entries@.len() ==> final(self).entries@[i] is None,
    {
        *self = TranspositionTable::new(mb);
    }

    /// The entry for `hash`, seen from `ply`, if its slot holds that position.
    pub fn read(&self, hash: u64, ply: usize) -> (r: Option<Entry>)
        requires
            self.wf(),
            ply < MAX_PLY,
        ensures
            r == (match stored_at(self.entries@, hash) {
                Some(e) => Some(seen_at(e, ply as int)),
                None => None,
            }),
    {
        let idx = (hash % (self.entries.len() as u64)) as usize;
        match self.entries[idx] {
            Some(e) => {
                if e.key == hash {
                    Some(Entry { score: from_table(e.score, ply), ..e })
                } else {
                    None
                }
            },
            None => None,
        }
    }

    /// Stores a search summary found at `ply`, replacing the slot's entry.
    pub fn write(
        &mut self,
        hash: u64,
        depth: i32,
        score: i32,
        bound: Bound,
        m: Option<ChessMove>,
        ply: usize,
    )
        requires
            old(self).wf(),
            valid_score(score as int),
            ply < MAX_PLY,
        ensures
            final(self).wf(),
            final(self).entries@ == old(self).entries@.update(
                old(self).slot(hash),
                Some(
                    Entry {
                        key: hash,
                        depth,
                        score: to_table_spec(score as int, ply as int) as i32,
                        bound,
                        m,
                    },
                ),
            ),
    {
        let idx = (hash % (self.entries.len() as u64)) as usize;
        let e = Entry { key: hash, depth, score: to_table(score, ply), bound, m };
        self.entries.set(idx, Some(e));
    }

    /// Hint that `hash` will be read soon; it changes nothing.
    pub fn prefetch(&self, hash: u64) {
    }
}

/// An exact entry written at some ply and read back at the same ply gives
/// the score written, and it settles any window that holds that score, at
/// any depth up to the one written.
pub proof fn lemma_exact_write_read(
    before: TranspositionTable,
    after: TranspositionTable,
    hash: u64,
    depth: i32,
    score: i32,
    m: Option<ChessMove>,
    ply: int,
)
    requires
        before.wf(),
        valid_score(score as int),
        0 <= ply < MAX_PLY,
        after.entries@ == before.entries@.update(
            before.slot(hash),
            Some(
                Entry {
                    key: hash,
                    depth,
                    score: to_table_spec(score as int, ply) as i32,
                    bound: Bound::Exact,
                    m,
                },
            ),
        ),
    ensures
        stored_at(after.entries@, hash) is Some,
        seen_at(stored_at(after.entries@, hash)->0, ply).score == score,
        forall|alpha: int, beta: int, d: int|
            alpha <= score <= beta && d <= depth ==> valid_cutoff_spec(
                seen_at(stored_at(after.entries@, hash)->0, ply),
                alpha,
                beta,
                d,
            ),
{
    let i = (hash as int) % (before.entries@.len() as int);
    assert(after.entries@[i] is Some);
}

} // verus!
