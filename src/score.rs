use vstd::prelude::*;

verus! {

/// Deepest ply the search ever reaches.
pub const MAX_PLY: usize = 128;

/// Larger than any score the search can produce.
pub const INFINITY: i32 = 32000;

/// Score of delivering mate on the current move.
pub const MATE: i32 = 30000;

/// Scores at or beyond this magnitude encode a forced mate.
pub const MATE_BOUND: i32 = 29872;

/// Score of a drawn position.
pub const DRAW: i32 = 0;

/// A score the search can return: strictly inside the infinite window.
pub open spec fn valid_score(s: int) -> bool {
    -INFINITY < s < INFINITY
}

/// Whether a score encodes a forced mate for either side.
pub open spec fn is_mate_score(s: int) -> bool {
    s >= MATE_BOUND || s <= -MATE_BOUND
}

pub open spec fn mate_in_spec(ply: int) -> int {
    MATE - ply
}

pub open spec fn mated_in_spec(ply: int) -> int {
    -MATE + ply
}

/// Score for the side to move when it delivers mate `ply` plies from the root.
pub fn mate_in(ply: usize) -> (r: i32)
    requires
        ply <= MAX_PLY,
    ensures
        r == mate_in_spec(ply as int),
        r >= MATE_BOUND,
{
    MATE - ply as i32
}

/// Score for the side to move when it is mated `ply` plies from the root.
pub fn mated_in(ply: usize) -> (r: i32)
    requires
        ply <= MAX_PLY,
    ensures
        r == mated_in_spec(ply as int),
        r <= -MATE_BOUND,
{
    -MATE + ply as i32
}

/// A score made relative to the node it was found at, as the table keeps it:
/// a mate `ply` plies below the root is `ply` plies nearer from the node.
pub open spec fn to_table_spec(s: int, ply: int) -> int {
    if s >= MATE_BOUND {
        s + ply
    } else if s <= -MATE_BOUND {
        s - ply
    } else {
        s
    }
}

/// The inverse of `to_table_spec`, taking a stored score back to the root.
pub open spec fn from_table_spec(s: int, ply: int) -> int {
    if s >= MATE_BOUND {
        s - ply
    } else if s <= -MATE_BOUND {
        s + ply
    } else {
        s
    }
}

pub fn to_table(s: i32, ply: usize) -> (r: i32)
    requires
        valid_score(s as int),
        ply < MAX_PLY,
    ensures
        r == to_table_spec(s as int, ply as int),
{
    if s >= MATE_BOUND {
        s + ply as i32
    } else if s <= -MATE_BOUND {
        s - ply as i32
    } else {
        s
    }
}

pub fn from_table(s: i32, ply: usize) -> (r: i32)
    requires
        -INFINITY - MAX_PLY < s < INFINITY + MAX_PLY,
        ply < MAX_PLY,
    ensures
        r == from_table_spec(s as int, ply as int),
{
    if s >= MATE_BOUND {
        s - ply as i32
    } else if s <= -MATE_BOUND {
        s + ply as i32
    } else {
        s
    }
}

/// Storing a score and reading it back at the same ply gives the score again.
pub proof fn lemma_table_round_trip(s: int, ply: int)
    requires
        0 <= ply,
    ensures
        from_table_spec(to_table_spec(s, ply), ply) == s,
{
}

/// A mate found `k` plies from the root at ply `p`, stored and read back at
/// ply `q`, is a mate `k + (q - p)` plies from the new root.
pub proof fn lemma_mate_transport(k: int, p: int, q: int)
    requires
        0 <= k <= MAX_PLY,
        0 <= p < MAX_PLY,
        0 <= q < MAX_PLY,
    ensures
        from_table_spec(to_table_spec(mate_in_spec(k), p), q) == mate_in_spec(k + (q - p)),
        from_table_spec(to_table_spec(mated_in_spec(k), p), q) == mated_in_spec(k + (q - p)),
{
}

} // verus!
