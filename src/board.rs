use vstd::prelude::*;
use crate::chess::{
    capture_moves, captures_spec, check_of, fen_result, hash_of, is_check, legal_moves, legal_of,
    null_of, parse_position, play, play_of, swap_turn, uci_of, uci_text, zobrist, FenError, Pieces,
    Position,
};
use crate::moves::ChessMove;
use crate::score::{INFINITY, MATE_BOUND, MAX_PLY};

verus! {

/// Material value of a piece kind in the static evaluation.
pub open spec fn material_value(i: int) -> int {
    if i == 0 {
        100
    } else if i == 1 {
        320
    } else if i == 2 {
        330
    } else if i == 3 {
        500
    } else if i == 4 {
        900
    } else {
        0
    }
}

/// Number of set bits among the lowest `n` bits of `x`.
pub open spec fn bits_below(x: u64, n: nat) -> nat
    decreases n,
{
    if n == 0 {
        0
    } else {
        bits_below(x, (n - 1) as nat) + (if (x >> ((n - 1) as u64)) & 1 == 1 {
            1nat
        } else {
            0nat
        })
    }
}

pub open spec fn popcount(x: u64) -> nat {
    bits_below(x, 64)
}

/// Number of pieces on a bitboard.
pub fn count_bits(x: u64) -> (r: u32)
    ensures
        r == popcount(x),
        r <= 64,
{
    let mut cnt: u32 = 0;
    let mut i: u64 = 0;
    while i < 64
        invariant
            i <= 64,
            cnt == bits_below(x, i as nat),
            cnt <= i,
        decreases 64 - i,
    {
        if (x >> i) & 1 == 1 {
            cnt = cnt + 1;
        }
        i = i + 1;
    }
    cnt
}

pub open spec fn kind_board(p: Pieces, i: int) -> u64 {
    if i == 0 {
        p.pawns
    } else if i == 1 {
        p.knights
    } else if i == 2 {
        p.bishops
    } else if i == 3 {
        p.rooks
    } else if i == 4 {
        p.queens
    } else {
        p.kings
    }
}

/// Material of the first `n` piece kinds, for the side to move less the other side.
pub open spec fn material_below(p: Pieces, n: int) -> int
    decreases n,
{
    if n <= 0 {
        0
    } else {
        let b = kind_board(p, n - 1);
        let us = if p.white_to_move {
            p.white
        } else {
            p.black
        };
        let them = if p.white_to_move {
            p.black
        } else {
            p.white
        };
        material_below(p, n - 1) + material_value(n - 1) * (popcount(b & us) as int - popcount(
            b & them,
        ) as int)
    }
}

pub open spec fn material_spec(p: Pieces) -> int {
    material_below(p, 5)
}

pub open spec fn clamp_eval(x: int) -> int {
    if x < -MATE_BOUND + 1 {
        -MATE_BOUND + 1
    } else if x > MATE_BOUND - 1 {
        MATE_BOUND - 1
    } else {
        x
    }
}

/// Static evaluation of a position, from the side to move: material balance,
/// kept inside the scores that mean mate.
pub fn evaluate_pieces(p: &Pieces) -> (r: i32)
    ensures
        r == clamp_eval(material_spec(*p)),
        -MATE_BOUND < r < MATE_BOUND,
{
    let us = if p.white_to_move {
        p.white
    } else {
        p.black
    };
    let them = if p.white_to_move {
        p.black
    } else {
        p.white
    };
    let mut total: i64 = 0;
    let mut i: usize = 0;
    while i < 5
        invariant
            i <= 5,
            us == (if p.white_to_move { p.white } else { p.black }),
            them == (if p.white_to_move { p.black } else { p.white }),
            total == material_below(*p, i as int),
            -64 * 900 * (i as int) <= total <= 64 * 900 * (i as int),
        decreases 5 - i,
    {
        let b = if i == 0 {
            p.pawns
        } else if i == 1 {
            p.knights
        } else if i == 2 {
            p.bishops
        } else if i == 3 {
            p.rooks
        } else {
            p.queens
        };
        let v: i64 = if i == 0 {
            100
        } else if i == 1 {
            320
        } else if i == 2 {
            330
        } else if i == 3 {
            500
        } else {
            900
        };
        let diff = count_bits(b & us) as i64 - count_bits(b & them) as i64;
        assert(-64 * 900 <= v * diff <= 64 * 900) by (nonlinear_arith)
            requires
                0 <= v <= 900,
                -64 <= diff <= 64,
        ;
        total = total + v * diff;
        i = i + 1;
    }
    if total < (-MATE_BOUND + 1) as i64 {
        -MATE_BOUND + 1
    } else if total > (MATE_BOUND - 1) as i64 {
        MATE_BOUND - 1
    } else {
        total as i32
    }
}

/// How many times `hash` occurs in `history`.
pub open spec fn occurrences(history: Seq<u64>, hash: u64) -> nat
    decreases history.len(),
{
    if history.len() == 0 {
        0
    } else {
        occurrences(history.drop_last(), hash) + (if history.last() == hash {
            1nat
        } else {
            0nat
        })
    }
}

/// Whether `hash` occurs at least twice in `history`.
pub fn repeated(history: &Vec<u64>, hash: u64) -> (r: bool)
    ensures
        r == (occurrences(history@, hash) >= 2),
{
    let mut cnt: usize = 0;
    let mut i: usize = history.len();
    proof {
        assert(history@.subrange(0, i as int) =~= history@);
    }
    while i > 0
        invariant
            i <= history@.len(),
            cnt + occurrences(history@.subrange(0, i as int), hash) == occurrences(history@, hash),
            cnt <= 1,
        decreases i,
    {
        proof {
            assert(history@.subrange(0, i as int).drop_last() =~= history@.subrange(0, i - 1));
        }
        if history[i - 1] == hash {
            cnt = cnt + 1;
            if cnt > 1 {
                return true;
            }
        }
        i = i - 1;
    }
    proof {
        assert(history@.subrange(0, 0) =~= Seq::<u64>::empty());
    }
    false
}

/// A position together with what it takes to take moves back: the earlier
/// positions, the moves played (`None` for a null move), the hashes of the
/// positions reached by real moves, the search ply and the evaluations by ply.
#[derive(Clone)]
pub struct Board {
    pub pos: Position,
    pub state_stack: Vec<Position>,
    pub move_stack: Vec<Option<ChessMove>>,
    pub history: Vec<u64>,
    pub ply: usize,
    pub eval_stack: Vec<i32>,
}

/// The standard starting position.
pub open spec fn start_spec() -> Position {
    Position {
        pieces: Pieces {
            pawns: 0x00ff_0000_0000_ff00,
            knights: 0x4200_0000_0000_0042,
            bishops: 0x2400_0000_0000_0024,
            rooks: 0x8100_0000_0000_0081,
            queens: 0x0800_0000_0000_0008,
            kings: 0x1000_0000_0000_0010,
            white: 0xffff,
            black: 0xffff_0000_0000_0000,
            white_to_move: true,
        },
        castling: 0x8100_0000_0000_0081,
        ep_square: None,
        halfmoves: 0,
        fullmoves: 1,
    }
}

/// The legal move of `moves` written `text`, the first if several are.
pub open spec fn find_spec(moves: Seq<ChessMove>, text: Seq<char>) -> Option<ChessMove>
    decreases moves.len(),
{
    if moves.len() == 0 {
        None
    } else if uci_of(moves[0]) == text {
        Some(moves[0])
    } else {
        find_spec(moves.skip(1), text)
    }
}

impl Board {
    pub open spec fn wf(&self) -> bool {
        &&& self.pos.wf()
        &&& self.eval_stack@.len() == MAX_PLY
        &&& self.ply < MAX_PLY
        &&& self.state_stack@.len() == self.move_stack@.len()
        &&& forall|i: int| 0 <= i < self.state_stack@.len() ==> (#[trigger] self.state_stack@[i]).wf()
        &&& forall|i: int| 0 <= i < self.move_stack@.len() && (#[trigger] self.move_stack@[i]) is Some
            ==> self.move_stack@[i]->0.wf()
    }

    /// Everything but the evaluations by ply: what a search must leave as it found it.
    pub open spec fn same_position(&self, other: &Board) -> bool {
        &&& self.pos == other.pos
        &&& self.state_stack@ == other.state_stack@
        &&& self.move_stack@ == other.move_stack@
        &&& self.history@ == other.history@
        &&& self.ply == other.ply
        &&& self.eval_stack@.len() == other.eval_stack@.len()
    }

    /// A board at `pos` with nothing played and every evaluation zero.
    pub open spec fn fresh(&self, pos: Position) -> bool {
        &&& self.wf()
        &&& self.pos == pos
        &&& self.ply == 0
        &&& self.state_stack@.len() == 0
        &&& self.move_stack@.len() == 0
        &&& self.history@.len() == 0
    }

    fn from_position(pos: Position) -> (r: Board)
        requires
            pos.wf(),
        ensures
            r.fresh(pos),
    {
        let mut eval_stack: Vec<i32> = Vec::new();
        let mut i: usize = 0;
        while i < MAX_PLY
            invariant
                i <= MAX_PLY,
                eval_stack@.len() == i,
            decreases MAX_PLY - i,
        {
            eval_stack.push(0);
            i = i + 1;
        }
        Board {
            pos,
            state_stack: Vec::new(),
            move_stack: Vec::new(),
            history: Vec::new(),
            ply: 0,
            eval_stack,
        }
    }

    /// The position of a FEN record, or why it cannot be read.
    pub fn new(fen: &str) -> (r: Result<Board, FenError>)
        ensures
            r is Ok <==> fen_result(fen@) is Ok,
            r matches Ok(b) ==> b.fresh(fen_result(fen@)->Ok_0),
            r matches Err(e) ==> fen_result(fen@) == Err::<Position, FenError>(e),
    {
        match parse_position(fen) {
            Ok(pos) => Ok(Board::from_position(pos)),
            Err(e) => Err(e),
        }
    }

    pub fn starting_position() -> (r: Board)
        ensures
            r.fresh(start_spec()),
    {
        let pos = Position {
            pieces: Pieces {
                pawns: 0x00ff_0000_0000_ff00,
                knights: 0x4200_0000_0000_0042,
                bishops: 0x2400_0000_0000_0024,
                rooks: 0x8100_0000_0000_0081,
                queens: 0x0800_0000_0000_0008,
                kings: 0x1000_0000_0000_0010,
                white: 0xffff,
                black: 0xffff_0000_0000_0000,
                white_to_move: true,
            },
            castling: 0x8100_0000_0000_0081,
            ep_square: None,
            halfmoves: 0,
            fullmoves: 1,
        };
        proof {
            let (a, b, c, d, e, f, w, k) = (
                pos.pieces.pawns,
                pos.pieces.knights,
                pos.pieces.bishops,
                pos.pieces.rooks,
                pos.pieces.queens,
                pos.pieces.kings,
                pos.pieces.white,
                pos.pieces.black,
            );
            assert(a & b == 0 && a & c == 0 && a & d == 0 && a & e == 0 && a & f == 0 && b & c
                == 0 && b & d == 0 && b & e == 0 && b & f == 0 && c & d == 0 && c & e == 0 && c & f
                == 0 && d & e == 0 && d & f == 0 && e & f == 0 && w & k == 0 && a | b | c | d | e
                | f == w | k) by (bit_vector)
                requires
                    a == 0x00ff_0000_0000_ff00u64,
                    b == 0x4200_0000_0000_0042u64,
                    c == 0x2400_0000_0000_0024u64,
                    d == 0x8100_0000_0000_0081u64,
                    e == 0x0800_0000_0000_0008u64,
                    f == 0x1000_0000_0000_0010u64,
                    w == 0xffffu64,
                    k == 0xffff_0000_0000_0000u64,
            ;
        }
        Board::from_position(pos)
    }

    /// The pieces of the position, for exchange evaluation and the evaluation.
    pub fn state(&self) -> (r: Pieces)
        ensures
            r == self.pos.pieces,
    {
        self.pos.pieces
    }

    /// Whether the side to move has a piece other than pawns and king.
    pub fn has_non_pawn_material(&self) -> (r: bool)
        ensures
            r == has_pieces_spec(self.pos.pieces),
    {
        has_pieces(&self.pos.pieces)
    }

    pub fn get_hash(&self) -> (r: u64)
        requires
            self.wf(),
        ensures
            r == hash_of(self.pos),
    {
        zobrist(&self.pos)
    }

    pub fn to_uci(&self, m: &ChessMove) -> (r: String)
        requires
            m.wf(),
        ensures
            r@ == uci_of(*m),
    {
        uci_text(m)
    }

    /// Whether white is to move.
    pub fn turn(&self) -> (r: bool)
        ensures
            r == self.pos.pieces.white_to_move,
    {
        self.pos.pieces.white_to_move
    }

    pub fn in_check(&self) -> (r: bool)
        requires
            self.wf(),
        ensures
            r == check_of(self.pos),
    {
        is_check(&self.pos)
    }

    pub fn legal_moves(&self) -> (r: Vec<ChessMove>)
        requires
            self.wf(),
        ensures
            r@ == legal_of(self.pos),
            forall|i: int| 0 <= i < r@.len() ==> (#[trigger] r@[i]).wf(),
    {
        legal_moves(&self.pos)
    }

    pub fn capture_moves(&self) -> (r: Vec<ChessMove>)
        requires
            self.wf(),
        ensures
            r@ == captures_spec(self.pos),
            forall|i: int| 0 <= i < r@.len() ==> (#[trigger] r@[i]).wf(),
    {
        capture_moves(&self.pos)
    }

    pub fn set_ply(&mut self, ply: usize)
        requires
            old(self).wf(),
            ply < MAX_PLY,
        ensures
            final(self).wf(),
            final(self).ply == ply,
            final(self).pos == old(self).pos,
            final(self).state_stack@ == old(self).state_stack@,
            final(self).move_stack@ == old(self).move_stack@,
            final(self).history@ == old(self).history@,
            final(self).eval_stack@ == old(self).eval_stack@,
    {
        self.ply = ply;
    }

    pub fn ply(&self) -> (r: usize)
        ensures
            r == self.ply,
    {
        self.ply
    }

    /// The move played `index` moves ago (1 is the last), `None` past the
    /// first or for a null move.
    pub fn tail_move(&self, index: usize) -> (r: Option<ChessMove>)
        ensures
            r == (if 1 <= index <= self.move_stack@.len() {
                self.move_stack@[self.move_stack@.len() - index]
            } else {
                None
            }),
    {
        if index >= 1 && index <= self.move_stack.len() {
            self.move_stack[self.move_stack.len() - index]
        } else {
            None
        }
    }

    /// Plays `m` (a position stays as it is where `m` is not legal there) and
    /// records the hash of the position reached. A search move (`in_place`
    /// false) also goes one ply deeper.
    pub fn make_move(&mut self, m: &ChessMove, in_place: bool)
        requires
            old(self).wf(),
            m.wf(),
            in_place || old(self).ply + 1 < MAX_PLY,
        ensures
            final(self).wf(),
            final(self).pos == (match play_of(old(self).pos, *m) {
                Some(q) => q,
                None => old(self).pos,
            }),
            final(self).state_stack@ == old(self).state_stack@.push(old(self).pos),
            final(self).move_stack@ == old(self).move_stack@.push(Some(*m)),
            final(self).history@ == old(self).history@.push(hash_of(final(self).pos)),
            final(self).ply == (if in_place {
                old(self).ply as int
            } else {
                old(self).ply + 1
            }),
            final(self).eval_stack@ == old(self).eval_stack@,
    {
        let prev = self.pos;
        match play(&self.pos, m) {
            Some(q) => {
                self.pos = q;
            },
            None => {},
        }
        self.state_stack.push(prev);
        if !in_place {
            self.ply = self.ply + 1;
        }
        self.move_stack.push(Some(*m));
        let h = zobrist(&self.pos);
        self.history.push(h);
    }

    /// Takes back the last move made by `make_move` during a search.
    pub fn undo_move(&mut self)
        requires
            old(self).wf(),
            old(self).state_stack@.len() > 0,
            old(self).history@.len() > 0,
            old(self).ply > 0,
        ensures
            final(self).wf(),
            final(self).pos == old(self).state_stack@.last(),
            final(self).state_stack@ == old(self).state_stack@.drop_last(),
            final(self).move_stack@ == old(self).move_stack@.drop_last(),
            final(self).history@ == old(self).history@.drop_last(),
            final(self).ply == old(self).ply - 1,
            final(self).eval_stack@ == old(self).eval_stack@,
    {
        let _m = self.move_stack.pop();
        match self.state_stack.pop() {
            Some(p) => {
                self.pos = p;
            },
            None => {},
        }
        let _h = self.history.pop();
        self.ply = self.ply - 1;
        proof {
            assert(self.move_stack@ =~= old(self).move_stack@.drop_last());
        }
    }

    /// Passes the turn to the other side, where that position is legal; the
    /// position stays as it is otherwise.
    pub fn make_null_move(&mut self)
        requires
            old(self).wf(),
            old(self).ply + 1 < MAX_PLY,
        ensures
            final(self).wf(),
            final(self).pos == (match null_of(old(self).pos) {
                Some(q) => q,
                None => old(self).pos,
            }),
            null_of(old(self).pos) is Some ==> final(self).pos.pieces.white_to_move
                != old(self).pos.pieces.white_to_move,
            final(self).state_stack@ == old(self).state_stack@.push(old(self).pos),
            final(self).move_stack@ == old(self).move_stack@.push(None),
            final(self).history@ == old(self).history@,
            final(self).ply == old(self).ply + 1,
            final(self).eval_stack@ == old(self).eval_stack@,
    {
        let prev = self.pos;
        match swap_turn(&self.pos) {
            Some(p) => {
                self.pos = p;
            },
            None => {},
        }
        self.state_stack.push(prev);
        self.move_stack.push(None);
        self.ply = self.ply + 1;
    }

    /// Takes back a null move.
    pub fn undo_null_move(&mut self)
        requires
            old(self).wf(),
            old(self).state_stack@.len() > 0,
            old(self).ply > 0,
        ensures
            final(self).wf(),
            final(self).pos == old(self).state_stack@.last(),
            final(self).state_stack@ == old(self).state_stack@.drop_last(),
            final(self).move_stack@ == old(self).move_stack@.drop_last(),
            final(self).history@ == old(self).history@,
            final(self).ply == old(self).ply - 1,
            final(self).eval_stack@ == old(self).eval_stack@,
    {
        match self.state_stack.pop() {
            Some(p) => {
                self.pos = p;
            },
            None => {},
        }
        let _m = self.move_stack.pop();
        self.ply = self.ply - 1;
        proof {
            assert(self.move_stack@ =~= old(self).move_stack@.drop_last());
        }
    }

    /// Whether the last move played was a null move.
    pub fn is_last_move_null(&self) -> (r: bool)
        ensures
            r == (self.move_stack@.len() > 0 && self.move_stack@.last() is None),
    {
        if self.move_stack.len() == 0 {
            false
        } else {
            self.move_stack[self.move_stack.len() - 1].is_none()
        }
    }

    /// Static evaluation from the side to move. This library evaluates by
    /// material balance alone (`evaluate_pieces`); it holds no neural network.
    pub fn evaluate(&self) -> (r: i32)
        ensures
            r == clamp_eval(material_spec(self.pos.pieces)),
            -MATE_BOUND < r < MATE_BOUND,
    {
        evaluate_pieces(&self.pos.pieces)
    }

    /// Whether the position has occurred at least twice among those reached by moves.
    pub fn three_fold(&self) -> (r: bool)
        requires
            self.wf(),
        ensures
            r == (occurrences(self.history@, hash_of(self.pos)) >= 2),
    {
        let h = zobrist(&self.pos);
        repeated(&self.history, h)
    }

    pub fn set_eval(&mut self, ply: usize, eval: i32)
        requires
            old(self).wf(),
            ply < MAX_PLY,
        ensures
            final(self).wf(),
            final(self).same_position(old(self)),
            final(self).eval_stack@ == old(self).eval_stack@.update(ply as int, eval),
    {
        self.eval_stack.set(ply, eval);
    }

    /// Whether the evaluation at the current ply beats the one two plies up
    /// (four, where that one was never set), out of check.
    pub fn is_improving(&self) -> (r: bool)
        requires
            self.wf(),
        ensures
            r == (self.ply >= 2 && !check_of(self.pos) && self.eval_stack@[self.ply as int]
                > previous_eval(self.eval_stack@, self.ply as int)),
    {
        if self.ply < 2 {
            return false;
        }
        if self.in_check() {
            return false;
        }
        improving(&self.eval_stack, self.ply)
    }

    /// Plays the legal move written `text` in UCI notation; does nothing if there is none.
    pub fn play_uci(&mut self, text: &str)
        requires
            old(self).wf(),
        ensures
            final(self).wf(),
            find_spec(legal_of(old(self).pos), text@) is None ==> *final(self) == *old(self),
            find_spec(legal_of(old(self).pos), text@) matches Some(m) ==> final(self).pos == (
            match play_of(old(self).pos, m) {
                Some(q) => q,
                None => old(self).pos,
            }) && final(self).move_stack@ == old(self).move_stack@.push(Some(m))
                && final(self).state_stack@ == old(self).state_stack@.push(old(self).pos)
                && final(self).history@ == old(self).history@.push(hash_of(final(self).pos))
                && final(self).ply == old(self).ply && final(self).eval_stack@ == old(self).eval_stack@,
    {
        match self.find_uci(text) {
            Some(m) => self.make_move(&m, true),
            None => {},
        }
    }

    /// The first legal move written `text` in UCI notation.
    pub fn find_uci(&self, text: &str) -> (r: Option<ChessMove>)
        requires
            self.wf(),
        ensures
            r == find_spec(legal_of(self.pos), text@),
            r matches Some(m) ==> m.wf() && legal_of(self.pos).contains(m) && uci_of(m) == text@,
    {
        let moves = self.legal_moves();
        let t = text.to_owned();
        let mut i: usize = 0;
        proof {
            assert(moves@.skip(0) =~= moves@);
        }
        while i < moves.len()
            invariant
                moves@ == legal_of(self.pos),
                t@ == text@,
                i <= moves@.len(),
                forall|k: int| 0 <= k < moves@.len() ==> (#[trigger] moves@[k]).wf(),
                find_spec(moves@, text@) == find_spec(moves@.skip(i as int), text@),
            decreases moves@.len() - i,
        {
            let u = self.to_uci(&moves[i]);
            proof {
                assert(moves@.skip(i as int)[0] == moves@[i as int]);
                assert(moves@.skip(i as int).skip(1) =~= moves@.skip(i + 1));
            }
            if u == t {
                return Some(moves[i]);
            }
            i = i + 1;
        }
        proof {
            assert(moves@.skip(i as int).len() == 0);
        }
        None
    }
}

/// `after` is `before` with search move `m` made, as `make_move` states it.
pub open spec fn made(before: Board, after: Board, m: ChessMove) -> bool {
    &&& after.pos == (match play_of(before.pos, m) {
        Some(q) => q,
        None => before.pos,
    })
    &&& after.state_stack@ == before.state_stack@.push(before.pos)
    &&& after.move_stack@ == before.move_stack@.push(Some(m))
    &&& after.history@ == before.history@.push(hash_of(after.pos))
    &&& after.ply == before.ply + 1
    &&& after.eval_stack@ == before.eval_stack@
}

/// `after` is `before` with its last move taken back, as `undo_move` states it.
pub open spec fn undone(before: Board, after: Board) -> bool {
    &&& after.pos == before.state_stack@.last()
    &&& after.state_stack@ == before.state_stack@.drop_last()
    &&& after.move_stack@ == before.move_stack@.drop_last()
    &&& after.history@ == before.history@.drop_last()
    &&& after.ply == before.ply - 1
    &&& after.eval_stack@ == before.eval_stack@
}

/// Making a move and taking it back leaves the board as it was: the same
/// position, so the same hash, stacks and repetition history.
pub proof fn lemma_make_undo(b0: Board, b1: Board, b2: Board, m: ChessMove)
    requires
        made(b0, b1, m),
        undone(b1, b2),
    ensures
        b2.same_position(&b0),
        hash_of(b2.pos) == hash_of(b0.pos),
        b2.eval_stack@ == b0.eval_stack@,
{
    assert(b2.state_stack@ =~= b0.state_stack@);
    assert(b2.move_stack@ =~= b0.move_stack@);
    assert(b2.history@ =~= b0.history@);
}

pub open spec fn has_pieces_spec(p: Pieces) -> bool {
    (p.knights | p.bishops | p.rooks | p.queens) & (if p.white_to_move {
        p.white
    } else {
        p.black
    }) != 0
}

/// Whether the side to move has a knight, bishop, rook or queen.
pub fn has_pieces(p: &Pieces) -> (r: bool)
    ensures
        r == has_pieces_spec(*p),
{
    let us = if p.white_to_move {
        p.white
    } else {
        p.black
    };
    (p.knights | p.bishops | p.rooks | p.queens) & us != 0
}

/// The evaluation two plies up, or four where the one two up was never set.
pub open spec fn previous_eval(evals: Seq<i32>, ply: int) -> i32 {
    if evals[ply - 2] == -INFINITY && ply >= 4 {
        evals[ply - 4]
    } else {
        evals[ply - 2]
    }
}

/// Whether the evaluation at `ply` beats the previous one of the same side.
pub fn improving(evals: &Vec<i32>, ply: usize) -> (r: bool)
    requires
        2 <= ply < evals@.len(),
    ensures
        r == (evals@[ply as int] > previous_eval(evals@, ply as int)),
{
    let mut previous = evals[ply - 2];
    if previous == -INFINITY && ply >= 4 {
        previous = evals[ply - 4];
    }
    evals[ply] > previous
}

} // verus!
