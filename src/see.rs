use vstd::prelude::*;
use crate::chess::{
    bishop_attacks, bishop_attacks_of, king_attacks, king_attacks_of, knight_attacks,
    knight_attacks_of, pawn_attacks, pawn_attacks_of, rook_attacks, rook_attacks_of, Pieces,
};
use crate::moves::{ChessMove, Piece};

verus! {

/// Most exchanges a swap-off follows; each one takes a piece off the board.
pub const SWAP_LIMIT: usize = 64;

/// Material value of a piece kind in the exchange count.
pub open spec fn see_value_spec(p: Piece) -> int {
    match p {
        Piece::Pawn => 100,
        Piece::Knight => 400,
        Piece::Bishop => 400,
        Piece::Rook => 650,
        Piece::Queen => 1200,
        Piece::King => 0,
    }
}

pub fn see_value(p: Piece) -> (r: i32)
    ensures
        r == see_value_spec(p),
        0 <= r <= 1200,
{
    match p {
        Piece::Pawn => 100,
        Piece::Knight => 400,
        Piece::Bishop => 400,
        Piece::Rook => 650,
        Piece::Queen => 1200,
        Piece::King => 0,
    }
}

/// What a move takes, in exchange value: nothing for a quiet move.
pub open spec fn move_value_spec(m: ChessMove) -> int {
    match m.captured_spec() {
        Some(c) => see_value_spec(c),
        None => 0,
    }
}

pub fn move_value(m: &ChessMove) -> (r: i32)
    ensures
        r == move_value_spec(*m),
        0 <= r <= 1200,
{
    match m.captured() {
        Some(c) => see_value(c),
        None => 0,
    }
}

impl Pieces {
    pub open spec fn by_piece_spec(self, p: Piece) -> u64 {
        match p {
            Piece::Pawn => self.pawns,
            Piece::Knight => self.knights,
            Piece::Bishop => self.bishops,
            Piece::Rook => self.rooks,
            Piece::Queen => self.queens,
            Piece::King => self.kings,
        }
    }

    pub fn by_piece(&self, p: Piece) -> (r: u64)
        ensures
            r == self.by_piece_spec(p),
    {
        match p {
            Piece::Pawn => self.pawns,
            Piece::Knight => self.knights,
            Piece::Bishop => self.bishops,
            Piece::Rook => self.rooks,
            Piece::Queen => self.queens,
            Piece::King => self.kings,
        }
    }

    pub open spec fn side_spec(self, white: bool) -> u64 {
        if white {
            self.white
        } else {
            self.black
        }
    }

    /// Pieces of the given colour on squares of `occupied` that attack `sq`.
    pub open spec fn attacks_to_spec(self, sq: u8, white: bool, occupied: u64) -> u64 {
        self.side_spec(white) & ((rook_attacks_of(sq, occupied) & (self.rooks | self.queens))
            | (bishop_attacks_of(sq, occupied) & (self.bishops | self.queens)) | (
        knight_attacks_of(sq) & self.knights) | (king_attacks_of(sq) & self.kings) | (
        pawn_attacks_of(!white, sq) & self.pawns))
    }

    pub fn attacks_to(&self, sq: u8, white: bool, occupied: u64) -> (r: u64)
        requires
            sq < 64,
        ensures
            r == self.attacks_to_spec(sq, white, occupied),
    {
        let side = if white {
            self.white
        } else {
            self.black
        };
        side & ((rook_attacks(sq, occupied) & (self.rooks | self.queens)) | (bishop_attacks(
            sq,
            occupied,
        ) & (self.bishops | self.queens)) | (knight_attacks(sq) & self.knights) | (king_attacks(
            sq,
        ) & self.kings) | (pawn_attacks(!white, sq) & self.pawns))
    }
}

/// The first piece kind, pawn to king, with a piece among `attackers`.
pub open spec fn lva_spec(p: Pieces, attackers: u64) -> Option<Piece> {
    if attackers & p.pawns != 0 {
        Some(Piece::Pawn)
    } else if attackers & p.knights != 0 {
        Some(Piece::Knight)
    } else if attackers & p.bishops != 0 {
        Some(Piece::Bishop)
    } else if attackers & p.rooks != 0 {
        Some(Piece::Rook)
    } else if attackers & p.queens != 0 {
        Some(Piece::Queen)
    } else if attackers & p.kings != 0 {
        Some(Piece::King)
    } else {
        None
    }
}

/// The least valuable kind of piece among `attackers`.
pub fn least_valuable_attacker(p: &Pieces, attackers: u64) -> (r: Option<Piece>)
    ensures
        r == lva_spec(*p, attackers),
{
    if attackers & p.pawns != 0 {
        Some(Piece::Pawn)
    } else if attackers & p.knights != 0 {
        Some(Piece::Knight)
    } else if attackers & p.bishops != 0 {
        Some(Piece::Bishop)
    } else if attackers & p.rooks != 0 {
        Some(Piece::Rook)
    } else if attackers & p.queens != 0 {
        Some(Piece::Queen)
    } else if attackers & p.kings != 0 {
        Some(Piece::King)
    } else {
        None
    }
}

/// The lowest set bit of a non-empty bitboard.
pub open spec fn lowest_bit(x: u64) -> u64 {
    if x == 0 {
        0
    } else {
        x & !((x - 1) as u64)
    }
}

/// Attackers behind `a` once it has left `occupied`, seen through the target.
pub open spec fn revealed(p: Pieces, to: u8, a: Piece, occupied: u64) -> u64 {
    (if a == Piece::Pawn || a == Piece::Bishop || a == Piece::Queen {
        bishop_attacks_of(to, occupied) & (p.bishops | p.queens)
    } else {
        0
    }) | (if a == Piece::Rook || a == Piece::Queen {
        rook_attacks_of(to, occupied) & (p.rooks | p.queens)
    } else {
        0
    })
}

/// The side to move when a swap-off on `to` stops: it is the side that loses
/// the exchange. `balance` is what the side that just captured stands to
/// keep, less one, if `white` recaptures nothing; at most `fuel` more captures.
pub open spec fn exchange(
    p: Pieces,
    to: u8,
    occupied: u64,
    attackers: u64,
    white: bool,
    balance: int,
    fuel: nat,
) -> bool
    decreases fuel,
{
    if fuel == 0 {
        white
    } else {
        let ours = attackers & p.side_spec(white);
        match lva_spec(p, ours) {
            None => white,
            Some(a) => if a == Piece::King && attackers & p.side_spec(!white) != 0 {
                white
            } else {
                let occ = occupied ^ lowest_bit(p.by_piece_spec(a) & ours);
                let next = -balance - 1 - see_value_spec(a);
                if next >= 0 {
                    !white
                } else {
                    exchange(
                        p,
                        to,
                        occ,
                        (attackers | revealed(p, to, a, occ)) & occ,
                        !white,
                        next,
                        (fuel - 1) as nat,
                    )
                }
            },
        }
    }
}

/// Whether playing `m` keeps at least `threshold` of material once every
/// profitable recapture on its square has been made.
pub open spec fn see_spec(p: Pieces, m: ChessMove, threshold: int) -> bool {
    if m is Put || m.is_promotion_spec() || m is Castle {
        true
    } else if move_value_spec(m) - threshold < 0 {
        false
    } else if move_value_spec(m) - threshold - see_value_spec(m.role_spec()) >= 0 {
        true
    } else {
        let to = m.to_spec();
        let from = m.from_spec()->0;
        let occ = ((p.white | p.black) & !(1u64 << from)) | (1u64 << to);
        let attackers = (p.attacks_to_spec(to, true, occ) | p.attacks_to_spec(to, false, occ))
            & occ;
        exchange(
            p,
            to,
            occ,
            attackers,
            !p.white_to_move,
            move_value_spec(m) - threshold - see_value_spec(m.role_spec()),
            SWAP_LIMIT as nat,
        ) != p.white_to_move
    }
}

/// Static exchange evaluation: whether `m` wins at least `threshold`.
/// Drops, promotions and castles count as winning.
pub fn see(p: &Pieces, m: &ChessMove, threshold: i32) -> (r: Option<bool>)
    requires
        m.wf(),
    ensures
        r == Some(see_spec(*p, *m, threshold as int)),
{
    if matches!(m, ChessMove::Put { .. }) || m.is_promotion() || matches!(m, ChessMove::Castle { .. }) {
        return Some(true);
    }
    let mut balance: i64 = move_value(m) as i64 - threshold as i64;
    if balance < 0 {
        return Some(false);
    }
    balance = balance - see_value(m.role()) as i64;
    if balance >= 0 {
        return Some(true);
    }
    let to = m.to_square();
    let from = match m.from_square() {
        Some(f) => f,
        None => {
            return Some(true);
        },
    };
    let mut occupied: u64 = ((p.white | p.black) & !(1u64 << from)) | (1u64 << to);
    let mut white = !p.white_to_move;
    let mut attackers: u64 = (p.attacks_to(to, true, occupied) | p.attacks_to(to, false, occupied))
        & occupied;
    let mut fuel: usize = SWAP_LIMIT;
    let ghost start = exchange(*p, to, occupied, attackers, white, balance as int, SWAP_LIMIT as nat);
    while fuel > 0
        invariant_except_break
            fuel <= SWAP_LIMIT,
            to < 64,
            -0x1_0000_0000i64 <= balance < 0,
            exchange(*p, to, occupied, attackers, white, balance as int, fuel as nat) == start,
        ensures
            start == white,
        decreases fuel,
    {
        let ours = attackers & (if white {
            p.white
        } else {
            p.black
        });
        let a = match least_valuable_attacker(p, ours) {
            Some(a) => a,
            None => {
                break;
            },
        };
        let theirs = attackers & (if white {
            p.black
        } else {
            p.white
        });
        if matches!(a, Piece::King) && theirs != 0 {
            break;
        }
        let x = p.by_piece(a) & ours;
        let low = if x == 0 {
            0
        } else {
            x & !(x - 1)
        };
        occupied = occupied ^ low;
        white = !white;
        balance = -balance - 1 - see_value(a) as i64;
        if balance >= 0 {
            break;
        }
        let diagonal: u64 = if matches!(a, Piece::Pawn) || matches!(a, Piece::Bishop) || matches!(
            a,
            Piece::Queen
        ) {
            bishop_attacks(to, occupied) & (p.bishops | p.queens)
        } else {
            0
        };
        let orthogonal: u64 = if matches!(a, Piece::Rook) || matches!(a, Piece::Queen) {
            rook_attacks(to, occupied) & (p.rooks | p.queens)
        } else {
            0
        };
        attackers = (attackers | (diagonal | orthogonal)) & occupied;
        fuel = fuel - 1;
    }
    Some(white != p.white_to_move)
}

/// The side about to capture, if it wins the swap-off when the other side
/// stands to keep `hi`, also wins when that side stands to keep only `lo`.
proof fn lemma_exchange_monotone(
    p: Pieces,
    to: u8,
    occupied: u64,
    attackers: u64,
    white: bool,
    lo: int,
    hi: int,
    fuel: nat,
)
    requires
        lo <= hi,
    ensures
        exchange(p, to, occupied, attackers, white, hi, fuel) != white ==> exchange(
            p,
            to,
            occupied,
            attackers,
            white,
            lo,
            fuel,
        ) != white,
    decreases fuel,
{
    if fuel > 0 {
        let ours = attackers & p.side_spec(white);
        match lva_spec(p, ours) {
            None => {},
            Some(a) => {
                if !(a == Piece::King && attackers & p.side_spec(!white) != 0) {
                    let occ = occupied ^ lowest_bit(p.by_piece_spec(a) & ours);
                    let next_lo = -lo - 1 - see_value_spec(a);
                    let next_hi = -hi - 1 - see_value_spec(a);
                    if next_hi < 0 && next_lo < 0 {
                        lemma_exchange_monotone(
                            p,
                            to,
                            occ,
                            (attackers | revealed(p, to, a, occ)) & occ,
                            !white,
                            next_hi,
                            next_lo,
                            (fuel - 1) as nat,
                        );
                    }
                }
            },
        }
    }
}

/// A move that wins at least `t1` in the exchange also wins at least any
/// smaller `t2`.
pub proof fn lemma_see_monotone(p: Pieces, m: ChessMove, t1: int, t2: int)
    requires
        m.wf(),
        t2 <= t1,
    ensures
        see_spec(p, m, t1) ==> see_spec(p, m, t2),
{
    if !(m is Put || m.is_promotion_spec() || m is Castle) {
        let b1 = move_value_spec(m) - t1 - see_value_spec(m.role_spec());
        let b2 = move_value_spec(m) - t2 - see_value_spec(m.role_spec());
        if move_value_spec(m) - t1 >= 0 && b1 < 0 && b2 < 0 {
            let to = m.to_spec();
            let from = m.from_spec()->0;
            let occ = ((p.white | p.black) & !(1u64 << from)) | (1u64 << to);
            let attackers = (p.attacks_to_spec(to, true, occ) | p.attacks_to_spec(to, false, occ))
                & occ;
            lemma_exchange_monotone(
                p,
                to,
                occ,
                attackers,
                !p.white_to_move,
                b1,
                b2,
                SWAP_LIMIT as nat,
            );
        }
    }
}

/// Between a threshold the move wins and a larger one it loses lies a last
/// threshold it wins.
proof fn lemma_threshold_between(p: Pieces, m: ChessMove, lo: int, hi: int) -> (t: int)
    requires
        m.wf(),
        lo < hi,
        see_spec(p, m, lo),
        !see_spec(p, m, hi),
    ensures
        lo <= t < hi,
        see_spec(p, m, t),
        !see_spec(p, m, t + 1),
    decreases hi - lo,
{
    if lo + 1 == hi {
        lo
    } else if see_spec(p, m, lo + 1) {
        lemma_threshold_between(p, m, lo + 1, hi)
    } else {
        lo
    }
}

/// For a capture or quiet move (neither drop, promotion nor castle) there is a
/// threshold `t` such that the move wins at least `u` exactly when `u <= t`;
/// it lies between what the move takes less the mover's value, and what it takes.
pub proof fn lemma_see_threshold(p: Pieces, m: ChessMove) -> (t: int)
    requires
        m.wf(),
        !(m is Put || m.is_promotion_spec() || m is Castle),
    ensures
        move_value_spec(m) - see_value_spec(m.role_spec()) <= t <= move_value_spec(m),
        forall|u: int| #[trigger] see_spec(p, m, u) <==> u <= t,
{
    let lo = move_value_spec(m) - see_value_spec(m.role_spec());
    let hi = move_value_spec(m) + 1;
    let t = lemma_threshold_between(p, m, lo, hi);
    assert forall|u: int| #[trigger] see_spec(p, m, u) <==> u <= t by {
        if u <= t {
            lemma_see_monotone(p, m, t, u);
        } else {
            lemma_see_monotone(p, m, u, t + 1);
        }
    }
    t
}

} // verus!
