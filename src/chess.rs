use vstd::prelude::*;
use crate::moves::{ChessMove, Piece};
use shakmaty::Position as _;
use shakmaty::{Bitboard, ByColor, ByRole, Color, Square};
use shakmaty::FromSetup as _;
use shakmaty::zobrist::ZobristHash;

verus! {

#[verifier::external_type_specification]
#[verifier::external_body]
pub struct ExChess(shakmaty::Chess);

#[verifier::external_type_specification]
#[verifier::external_body]
pub struct ExMove(shakmaty::Move);

#[verifier::external_type_specification]
#[verifier::external_body]
pub struct ExRole(shakmaty::Role);

#[verifier::external_type_specification]
#[verifier::external_body]
pub struct ExSetup(shakmaty::Setup);

/// Why a position could not be read.
#[derive(PartialEq, Eq, Structural, Clone, Copy, Debug)]
pub enum FenError {
    /// The text is not a FEN record.
    Syntax,
    /// The record describes a position that cannot arise.
    IllegalPosition,
}

/// The pieces of a position as bitboards, bit `i` standing for square `i`.
#[derive(PartialEq, Eq, Structural, Clone, Copy, Debug)]
pub struct Pieces {
    pub pawns: u64,
    pub knights: u64,
    pub bishops: u64,
    pub rooks: u64,
    pub queens: u64,
    pub kings: u64,
    pub white: u64,
    pub black: u64,
    pub white_to_move: bool,
}

impl Pieces {
    /// The piece kinds occupy disjoint squares, the colours too, and both
    /// cover the same squares: what a board made of bitboards demands.
    pub open spec fn wf(&self) -> bool {
        &&& self.pawns & self.knights == 0
        &&& self.pawns & self.bishops == 0
        &&& self.pawns & self.rooks == 0
        &&& self.pawns & self.queens == 0
        &&& self.pawns & self.kings == 0
        &&& self.knights & self.bishops == 0
        &&& self.knights & self.rooks == 0
        &&& self.knights & self.queens == 0
        &&& self.knights & self.kings == 0
        &&& self.bishops & self.rooks == 0
        &&& self.bishops & self.queens == 0
        &&& self.bishops & self.kings == 0
        &&& self.rooks & self.queens == 0
        &&& self.rooks & self.kings == 0
        &&& self.queens & self.kings == 0
        &&& self.white & self.black == 0
        &&& self.pawns | self.knights | self.bishops | self.rooks | self.queens | self.kings
            == self.white | self.black
    }
}

/// A chess position as plain values: the pieces and side to move, the
/// castling rights (as the squares of the rooks that may castle), the en
/// passant square, and the move counters.
#[derive(PartialEq, Eq, Structural, Clone, Copy, Debug)]
pub struct Position {
    pub pieces: Pieces,
    pub castling: u64,
    pub ep_square: Option<u8>,
    pub halfmoves: u32,
    pub fullmoves: u32,
}

impl Position {
    pub open spec fn wf(&self) -> bool {
        &&& self.pieces.wf()
        &&& self.fullmoves >= 1
        &&& self.ep_square matches Some(s) ==> s < 64
    }
}

/// What reading a FEN record gives.
pub uninterp spec fn fen_result(s: Seq<char>) -> Result<Position, FenError>;

/// The legal moves of a position, in generation order; none if the position is not legal.
pub uninterp spec fn legal_of(p: Position) -> Seq<ChessMove>;

/// Whether the side to move is in check.
pub uninterp spec fn check_of(p: Position) -> bool;

/// The 64-bit Zobrist hash of a position.
pub uninterp spec fn hash_of(p: Position) -> u64;

/// The position after a move, if the move is legal.
pub uninterp spec fn play_of(p: Position, m: ChessMove) -> Option<Position>;

/// The position with the other side to move, if that position is legal.
pub uninterp spec fn null_of(p: Position) -> Option<Position>;

/// A move in UCI notation.
pub uninterp spec fn uci_of(m: ChessMove) -> Seq<char>;

/// Squares a rook on `sq` attacks, given the occupied squares.
pub uninterp spec fn rook_attacks_of(sq: u8, occupied: u64) -> u64;

/// Squares a bishop on `sq` attacks, given the occupied squares.
pub uninterp spec fn bishop_attacks_of(sq: u8, occupied: u64) -> u64;

/// Squares a knight on `sq` attacks.
pub uninterp spec fn knight_attacks_of(sq: u8) -> u64;

/// Squares a king on `sq` attacks.
pub uninterp spec fn king_attacks_of(sq: u8) -> u64;

/// Squares a pawn of the given colour on `sq` attacks.
pub uninterp spec fn pawn_attacks_of(white: bool, sq: u8) -> u64;

/// Relies on shakmaty::attacks::rook_attacks (sliding attacks by magic lookup).
#[verifier::external_body]
pub(crate) fn rook_attacks(sq: u8, occupied: u64) -> (r: u64)
    requires
        sq < 64,
    ensures
        r == rook_attacks_of(sq, occupied),
{
    shakmaty::attacks::rook_attacks(shakmaty::Square::new(sq as u32), shakmaty::Bitboard(occupied)).0
}

/// Relies on shakmaty::attacks::bishop_attacks (sliding attacks by magic lookup).
#[verifier::external_body]
pub(crate) fn bishop_attacks(sq: u8, occupied: u64) -> (r: u64)
    requires
        sq < 64,
    ensures
        r == bishop_attacks_of(sq, occupied),
{
    shakmaty::attacks::bishop_attacks(shakmaty::Square::new(sq as u32), shakmaty::Bitboard(occupied)).0
}

/// Relies on shakmaty::attacks::knight_attacks (table lookup).
#[verifier::external_body]
pub(crate) fn knight_attacks(sq: u8) -> (r: u64)
    requires
        sq < 64,
    ensures
        r == knight_attacks_of(sq),
{
    shakmaty::attacks::knight_attacks(shakmaty::Square::new(sq as u32)).0
}

/// Relies on shakmaty::attacks::king_attacks (table lookup).
#[verifier::external_body]
pub(crate) fn king_attacks(sq: u8) -> (r: u64)
    requires
        sq < 64,
    ensures
        r == king_attacks_of(sq),
{
    shakmaty::attacks::king_attacks(shakmaty::Square::new(sq as u32)).0
}

/// Relies on shakmaty::attacks::pawn_attacks (table lookup).
#[verifier::external_body]
pub(crate) fn pawn_attacks(white: bool, sq: u8) -> (r: u64)
    requires
        sq < 64,
    ensures
        r == pawn_attacks_of(white, sq),
{
    shakmaty::attacks::pawn_attacks(shakmaty::Color::from_white(white), shakmaty::Square::new(sq as u32)).0
}

/// Relies on shakmaty's Role being the six piece kinds: one arm each.
#[verifier::external_body]
fn piece_of_role(r: shakmaty::Role) -> Piece {
    match r {
        shakmaty::Role::Pawn => Piece::Pawn,
        shakmaty::Role::Knight => Piece::Knight,
        shakmaty::Role::Bishop => Piece::Bishop,
        shakmaty::Role::Rook => Piece::Rook,
        shakmaty::Role::Queen => Piece::Queen,
        shakmaty::Role::King => Piece::King,
    }
}

/// Relies on shakmaty's Role being the six piece kinds: one arm each.
#[verifier::external_body]
fn role_of_piece(p: Piece) -> shakmaty::Role {
    match p {
        Piece::Pawn => shakmaty::Role::Pawn,
        Piece::Knight => shakmaty::Role::Knight,
        Piece::Bishop => shakmaty::Role::Bishop,
        Piece::Rook => shakmaty::Role::Rook,
        Piece::Queen => shakmaty::Role::Queen,
        Piece::King => shakmaty::Role::King,
    }
}

/// Relies on shakmaty::Move's four variants and on squares numbering 0 to 63.
#[verifier::external_body]
fn move_of_outside(m: &shakmaty::Move) -> (r: ChessMove)
    ensures
        r.wf(),
{
    match *m {
        shakmaty::Move::Normal { role, from, capture, to, promotion } => ChessMove::Normal {
            role: piece_of_role(role),
            from: u8::from(from),
            capture: capture.map(piece_of_role),
            to: u8::from(to),
            promotion: promotion.map(piece_of_role),
        },
        shakmaty::Move::EnPassant { from, to } => ChessMove::EnPassant { from: u8::from(from), to: u8::from(to) },
        shakmaty::Move::Castle { king, rook } => ChessMove::Castle { king: u8::from(king), rook: u8::from(rook) },
        shakmaty::Move::Put { role, to } => ChessMove::Put { role: piece_of_role(role), to: u8::from(to) },
    }
}

/// Relies on shakmaty::Move's four variants and on shakmaty::Square::new,
/// which panics outside 0 to 63.
#[verifier::external_body]
fn outside_move(m: &ChessMove) -> shakmaty::Move
    requires
        m.wf(),
{
    let sq = |s: u8| shakmaty::Square::new(s as u32);
    match *m {
        ChessMove::Normal { role, from, capture, to, promotion } => shakmaty::Move::Normal {
            role: role_of_piece(role),
            from: sq(from),
            capture: capture.map(role_of_piece),
            to: sq(to),
            promotion: promotion.map(role_of_piece),
        },
        ChessMove::EnPassant { from, to } => shakmaty::Move::EnPassant { from: sq(from), to: sq(to) },
        ChessMove::Castle { king, rook } => shakmaty::Move::Castle { king: sq(king), rook: sq(rook) },
        ChessMove::Put { role, to } => shakmaty::Move::Put { role: role_of_piece(role), to: sq(to) },
    }
}

/// Relies on shakmaty's Board::from_bitboards, which panics unless the
/// bitboards are consistent (`Pieces::wf`), and on `NonZeroU32::new`, which
/// succeeds as `fullmoves >= 1`.
#[verifier::external_body]
fn outside_setup(p: &Position) -> Option<shakmaty::Setup>
    requires
        p.wf(),
{
    let (q, r) = (&p.pieces, Bitboard);
    let board = shakmaty::Board::from_bitboards(ByRole { pawn: r(q.pawns), knight: r(q.knights),
        bishop: r(q.bishops), rook: r(q.rooks), queen: r(q.queens), king: r(q.kings) },
        ByColor { white: r(q.white), black: r(q.black) });
    Some(shakmaty::Setup { board, promoted: r(0), pockets: None, castling_rights: r(p.castling),
        turn: Color::from_white(q.white_to_move), remaining_checks: None,
        ep_square: p.ep_square.map(|s| Square::new(s as u32)), halfmoves: p.halfmoves,
        fullmoves: std::num::NonZeroU32::new(p.fullmoves)? })
}

/// Relies on shakmaty's Chess::from_setup with standard castling, which
/// rejects illegal positions.
#[verifier::external_body]
fn outside_position(p: &Position) -> Option<shakmaty::Chess>
    requires
        p.wf(),
{
    shakmaty::Chess::from_setup(outside_setup(p)?, shakmaty::CastlingMode::Standard).ok()
}

/// Relies on shakmaty's Board accessors by_role and by_color and on Position::turn.
#[verifier::external_body]
fn pieces_of(c: &shakmaty::Chess) -> Pieces {
    let (b, r) = (c.board(), |role: shakmaty::Role| c.board().by_role(role).0);
    Pieces { pawns: r(shakmaty::Role::Pawn), knights: r(shakmaty::Role::Knight),
        bishops: r(shakmaty::Role::Bishop), rooks: r(shakmaty::Role::Rook),
        queens: r(shakmaty::Role::Queen), kings: r(shakmaty::Role::King),
        white: b.by_color(shakmaty::Color::White).0, black: b.by_color(shakmaty::Color::Black).0,
        white_to_move: c.turn().is_white() }
}

/// Relies on shakmaty's Position::into_setup, en passant square kept where legal.
#[verifier::external_body]
fn plain_position(c: shakmaty::Chess) -> Position {
    let pieces = pieces_of(&c);
    let s = c.into_setup(shakmaty::EnPassantMode::Legal);
    Position { pieces, castling: s.castling_rights.0, ep_square: s.ep_square.map(u8::from),
        halfmoves: s.halfmoves, fullmoves: s.fullmoves.get() }
}

/// Relies on shakmaty's Fen parser and Fen::into_position with standard
/// castling; a shakmaty board keeps its bitboards consistent.
#[verifier::external_body]
pub(crate) fn parse_position(fen: &str) -> (r: Result<Position, FenError>)
    ensures
        r == fen_result(fen@),
        r matches Ok(p) ==> p.wf(),
{
    match fen.parse::<shakmaty::fen::Fen>() {
        Err(_) => Err(FenError::Syntax),
        Ok(f) => match f.into_position::<shakmaty::Chess>(shakmaty::CastlingMode::Standard) {
            Err(_) => Err(FenError::IllegalPosition),
            Ok(c) => Ok(plain_position(c)),
        },
    }
}

/// Relies on shakmaty's Position::legal_moves.
#[verifier::external_body]
pub(crate) fn legal_moves(p: &Position) -> (r: Vec<ChessMove>)
    requires
        p.wf(),
    ensures
        r@ == legal_of(*p),
        forall|i: int| 0 <= i < r@.len() ==> (#[trigger] r@[i]).wf(),
{
    match outside_position(p) {
        Some(c) => c.legal_moves().iter().map(move_of_outside).collect(),
        None => Vec::new(),
    }
}

/// The legal moves of a position that capture, in generation order.
pub open spec fn captures_spec(p: Position) -> Seq<ChessMove> {
    legal_of(p).filter(|m: ChessMove| m.is_capture_spec())
}

/// Relies on shakmaty's Position::capture_moves, which filters the legal
/// moves down to the captures, keeping their order.
#[verifier::external_body]
pub(crate) fn capture_moves(p: &Position) -> (r: Vec<ChessMove>)
    requires
        p.wf(),
    ensures
        r@ == captures_spec(*p),
        forall|i: int| 0 <= i < r@.len() ==> (#[trigger] r@[i]).wf(),
{
    match outside_position(p) {
        Some(c) => c.capture_moves().iter().map(move_of_outside).collect(),
        None => Vec::new(),
    }
}

/// Relies on shakmaty's checked Position::play, which refuses illegal moves
/// and plays legal ones.
#[verifier::external_body]
pub(crate) fn play(p: &Position, m: &ChessMove) -> (r: Option<Position>)
    requires
        p.wf(),
        m.wf(),
    ensures
        r == play_of(*p, *m),
        legal_of(*p).contains(*m) ==> r is Some,
        r matches Some(q) ==> q.wf(),
{
    let c = outside_position(p)?;
    c.play(&outside_move(m)).ok().map(plain_position)
}

/// Relies on shakmaty's Position::swap_turn: the same pieces with the other
/// side to move and no en passant square; `None` where that position is not legal.
#[verifier::external_body]
pub(crate) fn swap_turn(p: &Position) -> (r: Option<Position>)
    requires
        p.wf(),
    ensures
        r == null_of(*p),
        r matches Some(q) ==> q.pieces == (Pieces {
            white_to_move: !p.pieces.white_to_move,
            ..p.pieces
        }) && q.ep_square is None,
        r matches Some(q) ==> q.wf(),
{
    outside_position(p)?.swap_turn().ok().map(plain_position)
}

/// Relies on shakmaty's Position::is_check.
#[verifier::external_body]
pub(crate) fn is_check(p: &Position) -> (r: bool)
    requires
        p.wf(),
    ensures
        r == check_of(*p),
{
    outside_position(p).map_or(false, |c| c.is_check())
}

/// Relies on shakmaty's 64-bit Zobrist hash, counting en passant only when legal.
#[verifier::external_body]
pub(crate) fn zobrist(p: &Position) -> (r: u64)
    requires
        p.wf(),
    ensures
        r == hash_of(*p),
{
    outside_position(p).map_or(0, |c| c.zobrist_hash::<shakmaty::zobrist::Zobrist64>(shakmaty::EnPassantMode::Legal).0)
}

/// Relies on shakmaty's Move::to_uci in standard castling mode.
#[verifier::external_body]
pub(crate) fn uci_text(m: &ChessMove) -> (r: String)
    requires
        m.wf(),
    ensures
        r@ == uci_of(*m),
{
    outside_move(m).to_uci(shakmaty::CastlingMode::Standard).to_string()
}

} // verus!
