use vstd::prelude::*;
use crate::chess::Pieces;
use crate::history::{capture_index_spec, main_index_spec, History};
use crate::moves::ChessMove;
use crate::see::{see, see_spec, see_value, see_value_spec};

verus! {

/// Key of the table's move and of the previous iteration's best move.
pub const HASH_MOVE: i32 = 300_000_000;

/// Base key of a capture that does not lose material.
pub const GOOD_CAPTURE: i32 = 200_000_000;

/// Base key of a capture that loses material.
pub const BAD_CAPTURE: i32 = -200_000_000;

/// Key of the killer move of the ply.
pub const KILLER_BONUS: i32 = 100_000_000;

/// Key of a piece drop.
pub const DROP_MOVE: i32 = 100_000;

/// Weight of the quiet history in a quiet move's key.
pub const ORDERING_MAIN: i32 = 1;

/// What the ordering of one node's moves looks at.
pub struct OrderingContext<'a> {
    pub pieces: &'a Pieces,
    pub history: &'a History,
    pub killer: Option<ChessMove>,
    pub pv_move: Option<ChessMove>,
    pub tt_move: Option<ChessMove>,
}

/// The ordering key of a move: larger keys are searched first.
pub open spec fn move_key_spec(
    m: ChessMove,
    pieces: Pieces,
    main: Seq<i32>,
    capture: Seq<i32>,
    killer: Option<ChessMove>,
    pv_move: Option<ChessMove>,
    tt_move: Option<ChessMove>,
) -> int {
    if tt_move == Some(m) || pv_move == Some(m) {
        HASH_MOVE as int
    } else if m.is_capture_spec() {
        (if see_spec(pieces, m, 0) {
            GOOD_CAPTURE as int
        } else {
            BAD_CAPTURE as int
        }) + capture[capture_index_spec(m)->0] as int + 32 * see_value_spec(m.captured_spec()->0)
    } else if killer == Some(m) {
        KILLER_BONUS as int
    } else if m is Put {
        DROP_MOVE as int
    } else {
        ORDERING_MAIN * main[main_index_spec(pieces.white_to_move, m)->0] as int
    }
}

impl<'a> OrderingContext<'a> {
    pub open spec fn key_spec(&self, m: ChessMove) -> int {
        move_key_spec(
            m,
            *self.pieces,
            self.history.main@,
            self.history.capture@,
            self.killer,
            self.pv_move,
            self.tt_move,
        )
    }

    pub open spec fn keys_of(&self, moves: Seq<ChessMove>) -> Seq<int> {
        moves.map_values(|m: ChessMove| self.key_spec(m))
    }

    /// The ordering key of `m`.
    pub fn move_key(&self, m: &ChessMove) -> (r: i32)
        requires
            self.history.wf(),
            m.wf(),
        ensures
            r == self.key_spec(*m),
    {
        if self.tt_move == Some(*m) || self.pv_move == Some(*m) {
            return HASH_MOVE;
        }
        if m.is_capture() {
            let good = match see(self.pieces, m, 0) {
                Some(b) => b,
                None => false,
            };
            let captured = match m.captured() {
                Some(c) => c,
                None => {
                    return 0;
                },
            };
            let h = self.history.get_capture(m);
            let mvv = 32 * see_value(captured);
            if good {
                return GOOD_CAPTURE + h + mvv;
            } else {
                return BAD_CAPTURE + h + mvv;
            }
        }
        if self.killer == Some(*m) {
            return KILLER_BONUS;
        }
        if matches!(m, ChessMove::Put { .. }) {
            return DROP_MOVE;
        }
        ORDERING_MAIN * self.history.get_main(self.pieces.white_to_move, m)
    }
}

/// `dst` is `src` rearranged by `perm` (`dst[k] == src[perm[k]]`, no index
/// twice), with keys not increasing, and moves of equal key in their order in `src`.
pub open spec fn stable_descending(
    perm: Seq<int>,
    keys: Seq<int>,
    src: Seq<ChessMove>,
    dst: Seq<ChessMove>,
) -> bool {
    &&& perm.len() == dst.len()
    &&& src.len() == dst.len()
    &&& keys.len() == src.len()
    &&& forall|k: int|
        0 <= k < perm.len() ==> 0 <= #[trigger] perm[k] < src.len() && dst[k] == src[perm[k]]
    &&& forall|a: int, b: int| 0 <= a < b < perm.len() ==> perm[a] != perm[b]
    &&& forall|a: int, b: int|
        0 <= a < b < perm.len() ==> keys[#[trigger] perm[a]] >= keys[#[trigger] perm[b]]
    &&& forall|a: int, b: int|
        0 <= a < b < perm.len() && keys[#[trigger] perm[a]] == keys[#[trigger] perm[b]]
            ==> perm[a] < perm[b]
}

/// `dst` is `src` in a stable order of descending `keys`.
pub open spec fn sorted_from(keys: Seq<int>, src: Seq<ChessMove>, dst: Seq<ChessMove>) -> bool {
    exists|perm: Seq<int>| #[trigger] stable_descending(perm, keys, src, dst)
}

pub open spec fn int_keys(keys: Seq<i32>) -> Seq<int> {
    keys.map_values(|k: i32| k as int)
}

/// `moves` ordered by `keys` (one key per move), largest key first, ties kept
/// in their order.
pub fn sort_by_keys(moves: &Vec<ChessMove>, keys: &Vec<i32>) -> (r: Vec<ChessMove>)
    requires
        keys@.len() == moves@.len(),
    ensures
        sorted_from(int_keys(keys@), moves@, r@),
        r@.len() == moves@.len(),
        (forall|i: int| 0 <= i < moves@.len() ==> (#[trigger] moves@[i]).wf()) ==> (forall|i: int|
            0 <= i < r@.len() ==> (#[trigger] r@[i]).wf()),
{
    let ghost ks = int_keys(keys@);
    let mut out: Vec<ChessMove> = Vec::new();
    let mut out_keys: Vec<i32> = Vec::new();
    let ghost mut perm: Seq<int> = Seq::empty();
    let n = moves.len();
    let mut i: usize = 0;
    while i < n
        invariant
            n == moves@.len(),
            n == keys@.len(),
            ks == int_keys(keys@),
            i <= n,
            perm.len() == i,
            out@.len() == i,
            out_keys@.len() == i,
            forall|k: int|
                0 <= k < i ==> 0 <= #[trigger] perm[k] < i && out@[k] == moves@[perm[k]]
                    && out_keys@[k] == keys@[perm[k]],
            forall|a: int, b: int| 0 <= a < b < i ==> perm[a] != perm[b],
            forall|a: int, b: int| 0 <= a < b < i ==> out_keys@[a] >= out_keys@[b],
            forall|a: int, b: int|
                0 <= a < b < i && out_keys@[a] == out_keys@[b] ==> perm[a] < perm[b],
        decreases n - i,
    {
        let k = keys[i];
        let mut j: usize = 0;
        while j < out_keys.len() && out_keys[j] >= k
            invariant
                j <= out_keys@.len(),
                forall|a: int| 0 <= a < j ==> out_keys@[a] >= k,
            decreases out_keys@.len() - j,
        {
            j = j + 1;
        }
        proof {
            assert forall|a: int| j <= a < i implies out_keys@[a] < k by {
                assert(out_keys@[j as int] < k);
                if a > j {
                    assert(out_keys@[j as int] >= out_keys@[a]);
                }
            }
        }
        out.insert(j, moves[i]);
        out_keys.insert(j, k);
        proof {
            perm = perm.insert(j as int, i as int);
        }
        i = i + 1;
    }
    proof {
        if forall|i: int| 0 <= i < moves@.len() ==> (#[trigger] moves@[i]).wf() {
            assert forall|k: int| 0 <= k < out@.len() implies (#[trigger] out@[k]).wf() by {
                assert(out@[k] == moves@[perm[k]]);
            }
        }
        assert(stable_descending(perm, ks, moves@, out@)) by {
            assert forall|a: int, b: int|
                0 <= a < b < perm.len() implies ks[#[trigger] perm[a]] >= ks[#[trigger] perm[b]] by {
                assert(out_keys@[a] >= out_keys@[b]);
            }
            assert forall|a: int, b: int|
                0 <= a < b < perm.len() && ks[#[trigger] perm[a]] == ks[#[trigger] perm[b]]
                implies perm[a] < perm[b] by {
                assert(out_keys@[a] == out_keys@[b]);
            }
        }
    }
    out
}

/// Orders a node's moves for search: best key first, equal keys in generation order.
pub fn sort_moves(moves: &mut Vec<ChessMove>, ctx: &OrderingContext)
    requires
        ctx.history.wf(),
        forall|i: int| 0 <= i < old(moves)@.len() ==> (#[trigger] old(moves)@[i]).wf(),
    ensures
        sorted_from(ctx.keys_of(old(moves)@), old(moves)@, final(moves)@),
        final(moves)@.len() == old(moves)@.len(),
        forall|i: int| 0 <= i < final(moves)@.len() ==> (#[trigger] final(moves)@[i]).wf(),
{
    let mut keys: Vec<i32> = Vec::new();
    let mut i: usize = 0;
    while i < moves.len()
        invariant
            i <= moves@.len(),
            moves@ == old(moves)@,
            keys@.len() == i,
            ctx.history.wf(),
            forall|k: int| 0 <= k < moves@.len() ==> (#[trigger] moves@[k]).wf(),
            forall|k: int| 0 <= k < i ==> keys@[k] as int == ctx.key_spec(moves@[k]),
        decreases moves@.len() - i,
    {
        let key = ctx.move_key(&moves[i]);
        keys.push(key);
        i = i + 1;
    }
    let sorted = sort_by_keys(moves, &keys);
    proof {
        assert(int_keys(keys@) =~= ctx.keys_of(old(moves)@));
    }
    *moves = sorted;
}

} // verus!
