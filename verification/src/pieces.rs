//! The two sides, the six kinds of piece, and what one square of the board holds.

use vstd::prelude::*;

verus! {

/// Colour a glyph is drawn in.
#[derive(Clone, Copy, Debug, PartialEq, Eq, Structural)]
pub enum Ink {
    Light,
    Dark,
}

/// One of the two players.
#[derive(Clone, Copy, Debug, PartialEq, Eq, Structural)]
pub enum Side {
    White,
    Black,
}

impl Side {
    /// The other player.
    pub open spec fn opponent(self) -> Side {
        match self {
            Side::White => Side::Black,
            Side::Black => Side::White,
        }
    }

    /// Ink for this side's pieces: light for white, dark for black.
    pub open spec fn ink_of(self) -> Ink {
        match self {
            Side::White => Ink::Light,
            Side::Black => Ink::Dark,
        }
    }

    /// The other player.
    pub fn other(self) -> (s: Side)
        ensures
            s == self.opponent(),
    {
        match self {
            Side::White => Side::Black,
            Side::Black => Side::White,
        }
    }

    /// Ink for this side's pieces.
    pub fn ink(self) -> (i: Ink)
        ensures
            i == self.ink_of(),
    {
        match self {
            Side::White => Ink::Light,
            Side::Black => Ink::Dark,
        }
    }
}

/// Kind of a chess piece.
#[derive(Clone, Copy, Debug, PartialEq, Eq, Structural)]
pub enum PieceKind {
    Pawn,
    Knight,
    Bishop,
    Rook,
    Queen,
    King,
}

impl PieceKind {
    /// Letter that stands for this kind on the board.
    pub open spec fn letter(self) -> char {
        match self {
            PieceKind::Pawn => 'P',
            PieceKind::Knight => 'N',
            PieceKind::Bishop => 'B',
            PieceKind::Rook => 'R',
            PieceKind::Queen => 'Q',
            PieceKind::King => 'K',
        }
    }

    /// Letter that stands for this kind on the board.
    pub fn glyph(self) -> (c: char)
        ensures
            c == self.letter(),
    {
        match self {
            PieceKind::Pawn => 'P',
            PieceKind::Knight => 'N',
            PieceKind::Bishop => 'B',
            PieceKind::Rook => 'R',
            PieceKind::Queen => 'Q',
            PieceKind::King => 'K',
        }
    }
}

/// Contents of one square as the rules engine reports them: the kind of the
/// piece standing there, if any, and the side the engine names for the
/// square, which is the piece's owner where a piece stands there.
#[derive(Clone, Copy, Debug, PartialEq, Eq)]
pub struct Cell {
    pub piece: Option<PieceKind>,
    pub side: Side,
}

} // verus!
