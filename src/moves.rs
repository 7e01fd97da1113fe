use vstd::prelude::*;

verus! {

/// The kind of a chess piece.
#[derive(PartialEq, Eq, Structural, Clone, Copy, Debug)]
pub enum Piece {
    Pawn,
    Knight,
    Bishop,
    Rook,
    Queen,
    King,
}

impl Piece {
    /// Position of the piece kind in tables indexed by kind, pawn first.
    pub open spec fn index_spec(self) -> nat {
        match self {
            Piece::Pawn => 0,
            Piece::Knight => 1,
            Piece::Bishop => 2,
            Piece::Rook => 3,
            Piece::Queen => 4,
            Piece::King => 5,
        }
    }

    pub fn index(&self) -> (r: usize)
        ensures
            r == self.index_spec(),
            r < 6,
    {
        match self {
            Piece::Pawn => 0,
            Piece::Knight => 1,
            Piece::Bishop => 2,
            Piece::Rook => 3,
            Piece::Queen => 4,
            Piece::King => 5,
        }
    }
}

/// A move of the board, with squares numbered 0 (a1) to 63 (h8).
#[derive(PartialEq, Eq, Structural, Clone, Copy, Debug)]
pub enum ChessMove {
    Normal { role: Piece, from: u8, capture: Option<Piece>, to: u8, promotion: Option<Piece> },
    EnPassant { from: u8, to: u8 },
    Castle { king: u8, rook: u8 },
    Put { role: Piece, to: u8 },
}

impl ChessMove {
    /// All squares named by the move are on the board.
    pub open spec fn wf(self) -> bool {
        match self {
            ChessMove::Normal { from, to, .. } => from < 64 && to < 64,
            ChessMove::EnPassant { from, to } => from < 64 && to < 64,
            ChessMove::Castle { king, rook } => king < 64 && rook < 64,
            ChessMove::Put { to, .. } => to < 64,
        }
    }

    pub open spec fn is_capture_spec(self) -> bool {
        match self {
            ChessMove::Normal { capture, .. } => capture.is_some(),
            ChessMove::EnPassant { .. } => true,
            _ => false,
        }
    }

    pub fn is_capture(&self) -> (r: bool)
        ensures
            r == self.is_capture_spec(),
    {
        match self {
            ChessMove::Normal { capture, .. } => capture.is_some(),
            ChessMove::EnPassant { .. } => true,
            _ => false,
        }
    }

    pub open spec fn is_promotion_spec(self) -> bool {
        match self {
            ChessMove::Normal { promotion, .. } => promotion.is_some(),
            _ => false,
        }
    }

    pub fn is_promotion(&self) -> (r: bool)
        ensures
            r == self.is_promotion_spec(),
    {
        match self {
            ChessMove::Normal { promotion, .. } => promotion.is_some(),
            _ => false,
        }
    }

    pub open spec fn is_castle_spec(self) -> bool {
        self is Castle
    }

    pub open spec fn is_put_spec(self) -> bool {
        self is Put
    }

    /// The kind of the piece that moves.
    pub open spec fn role_spec(self) -> Piece {
        match self {
            ChessMove::Normal { role, .. } => role,
            ChessMove::Put { role, .. } => role,
            ChessMove::EnPassant { .. } => Piece::Pawn,
            ChessMove::Castle { .. } => Piece::King,
        }
    }

    pub fn role(&self) -> (r: Piece)
        ensures
            r == self.role_spec(),
    {
        match self {
            ChessMove::Normal { role, .. } => *role,
            ChessMove::Put { role, .. } => *role,
            ChessMove::EnPassant { .. } => Piece::Pawn,
            ChessMove::Castle { .. } => Piece::King,
        }
    }

    /// The kind of the captured piece, if any.
    pub open spec fn captured_spec(self) -> Option<Piece> {
        match self {
            ChessMove::Normal { capture, .. } => capture,
            ChessMove::EnPassant { .. } => Some(Piece::Pawn),
            _ => None,
        }
    }

    pub fn captured(&self) -> (r: Option<Piece>)
        ensures
            r == self.captured_spec(),
    {
        match self {
            ChessMove::Normal { capture, .. } => *capture,
            ChessMove::EnPassant { .. } => Some(Piece::Pawn),
            _ => None,
        }
    }

    /// The origin square; a drop has none.
    pub open spec fn from_spec(self) -> Option<u8> {
        match self {
            ChessMove::Normal { from, .. } => Some(from),
            ChessMove::EnPassant { from, .. } => Some(from),
            ChessMove::Castle { king, .. } => Some(king),
            ChessMove::Put { .. } => None,
        }
    }

    pub fn from_square(&self) -> (r: Option<u8>)
        ensures
            r == self.from_spec(),
    {
        match self {
            ChessMove::Normal { from, .. } => Some(*from),
            ChessMove::EnPassant { from, .. } => Some(*from),
            ChessMove::Castle { king, .. } => Some(*king),
            ChessMove::Put { .. } => None,
        }
    }

    /// The destination square; a castle names the rook's square.
    pub open spec fn to_spec(self) -> u8 {
        match self {
            ChessMove::Normal { to, .. } => to,
            ChessMove::EnPassant { to, .. } => to,
            ChessMove::Castle { rook, .. } => rook,
            ChessMove::Put { to, .. } => to,
        }
    }

    pub fn to_square(&self) -> (r: u8)
        ensures
            r == self.to_spec(),
    {
        match self {
            ChessMove::Normal { to, .. } => *to,
            ChessMove::EnPassant { to, .. } => *to,
            ChessMove::Castle { rook, .. } => *rook,
            ChessMove::Put { to, .. } => *to,
        }
    }
}

} // verus!
