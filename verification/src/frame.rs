//! What one frame shows, derived from the engine's answers and the
//! controller's state.

use vstd::prelude::*;
use crate::geometry::{Square, anchor_of, outline_of, cell_anchor, cell_outline};
use crate::pieces::{Cell, Ink, Side};
use crate::controller::{Controller, text_of};

verus! {

/// The board as the rules engine reports it, indexed by file, then rank.
pub type Grid = [[Cell; 8]; 8];

/// How a finished game ended for one side.
#[derive(Clone, Copy, Debug, PartialEq, Eq, Structural)]
pub enum Verdict {
    Winner,
    Loser,
}

/// What is drawn beside the board for one side.
#[derive(Clone, Copy, Debug, PartialEq, Eq, Structural)]
pub enum Marker {
    /// Nothing is drawn.
    Hidden,
    /// The plain mark of a king in check.
    Check,
    /// The mark of the side that lost.
    Loser,
    /// The mark of the side that won.
    Winner,
}

/// The indicators of one side for one frame.
#[derive(Clone, Copy, Debug, PartialEq, Eq)]
pub struct Indicator {
    /// The side's king is in check right now, whatever the outcome.
    pub in_check: bool,
    /// How the game ended for the side, while an outcome is recorded.
    pub verdict: Option<Verdict>,
}

impl Indicator {
    /// The one mark to draw: a verdict takes the place of the check mark.
    pub open spec fn shown(self) -> Marker {
        match self.verdict {
            Some(Verdict::Winner) => Marker::Winner,
            Some(Verdict::Loser) => Marker::Loser,
            None => if self.in_check {
                Marker::Check
            } else {
                Marker::Hidden
            },
        }
    }

    /// The one mark to draw: a verdict takes the place of the check mark.
    pub fn marker(&self) -> (m: Marker)
        ensures
            m == self.shown(),
    {
        match self.verdict {
            Some(Verdict::Winner) => Marker::Winner,
            Some(Verdict::Loser) => Marker::Loser,
            None => if self.in_check {
                Marker::Check
            } else {
                Marker::Hidden
            },
        }
    }
}

/// One square as it is drawn.
#[derive(Clone, Copy, Debug, PartialEq, Eq)]
pub struct Sprite {
    /// The square drawn.
    pub square: Square,
    /// Top-left pixel of the square's outline.
    pub outline: (i32, i32),
    /// Pixel at which the glyph is placed.
    pub anchor: (i32, i32),
    /// Letter of the piece on the square, if one stands there.
    pub glyph: Option<char>,
    /// Colour of the glyph.
    pub ink: Ink,
}

/// Legal destinations of the piece on `origin`, as the rules engine gave them.
#[derive(Debug, PartialEq, Eq)]
pub struct LegalMoves {
    /// Square the destinations were computed for.
    pub origin: Square,
    /// The destinations.
    pub targets: Vec<Square>,
}

/// Everything the drawing layer needs for one frame.
#[derive(Debug, PartialEq, Eq)]
pub struct Frame {
    /// Text of the pending error, if there is one.
    pub error_text: Option<String>,
    /// Indicators for white.
    pub white: Indicator,
    /// Indicators for black.
    pub black: Indicator,
    /// The selected square, if there is one.
    pub highlight: Option<Square>,
    /// The 64 squares, file by file, each file by rising rank.
    pub sprites: Vec<Sprite>,
    /// One dot per legal destination of the selected piece.
    pub dots: Vec<(i32, i32)>,
    /// The rules engine is to be set back to the starting position once this
    /// frame has been drawn.
    pub reset_after: bool,
}

/// Indicators of `side`, given the recorded outcome and whether the side's
/// king is in check: the check flag as it is, and the winner's or the loser's
/// verdict while an outcome is recorded.
pub open spec fn indicator_for(side: Side, outcome: Option<Side>, in_check: bool) -> Indicator {
    Indicator {
        in_check,
        verdict: match outcome {
            Some(winner) => if winner == side {
                Some(Verdict::Winner)
            } else {
                Some(Verdict::Loser)
            },
            None => None,
        },
    }
}

/// How the square `sq` is drawn when it holds `cell`.
pub open spec fn sprite_at(sq: Square, cell: Cell) -> Sprite {
    Sprite {
        square: sq,
        outline: outline_of(sq),
        anchor: anchor_of(sq),
        glyph: match cell.piece {
            Some(kind) => Some(kind.letter()),
            None => None,
        },
        ink: cell.side.ink_of(),
    }
}

/// The sprites of the whole board: square `(f, r)` stands at index `8 * f + r`.
pub open spec fn board_sprites(grid: Grid) -> Seq<Sprite> {
    Seq::new(64, |i: int| sprite_at(((i / 8) as u8, (i % 8) as u8), grid[i / 8][i % 8]))
}

/// The dots of the legal-move overlay: one per destination, in the engine's
/// order, when `legal` was computed for the selected square; none otherwise.
pub open spec fn overlay_dots(selection: Option<Square>, legal: Option<LegalMoves>) -> Seq<(i32, i32)> {
    if selection is Some && legal is Some && legal->0.origin == selection->0 {
        Seq::new(legal->0.targets@.len(), |i: int| anchor_of(legal->0.targets@[i]))
    } else {
        Seq::empty()
    }
}

/// Indicators of `side` for one frame.
pub fn indicator(side: Side, outcome: Option<Side>, in_check: bool) -> (i: Indicator)
    ensures
        i == indicator_for(side, outcome, in_check),
{
    let verdict: Option<Verdict> = match outcome {
        Some(winner) => if winner == side {
            Some(Verdict::Winner)
        } else {
            Some(Verdict::Loser)
        },
        None => None,
    };
    Indicator { in_check, verdict }
}

/// How the square `sq` is drawn when it holds `cell`.
pub fn sprite(sq: Square, cell: Cell) -> (s: Sprite)
    ensures
        s == sprite_at(sq, cell),
{
    Sprite {
        square: sq,
        outline: cell_outline(sq),
        anchor: cell_anchor(sq),
        glyph: match cell.piece {
            Some(kind) => Some(kind.glyph()),
            None => None,
        },
        ink: cell.side.ink(),
    }
}

/// Lays out the 64 squares of `grid`.
pub fn layout_board(grid: &Grid) -> (sprites: Vec<Sprite>)
    ensures
        sprites@ == board_sprites(*grid),
{
    let mut sprites: Vec<Sprite> = Vec::new();
    let mut file: u8 = 0;
    while file < 8
        invariant
            file <= 8,
            sprites@.len() == 8 * file,
            forall|i: int| 0 <= i < sprites@.len() ==> sprites@[i] == board_sprites(*grid)[i],
        decreases 8 - file,
    {
        let mut rank: u8 = 0;
        while rank < 8
            invariant
                file < 8,
                rank <= 8,
                sprites@.len() == 8 * file + rank,
                forall|i: int| 0 <= i < sprites@.len() ==> sprites@[i] == board_sprites(*grid)[i],
            decreases 8 - rank,
        {
            let cell: Cell = grid[file as usize][rank as usize];
            sprites.push(sprite((file, rank), cell));
            rank = rank + 1;
        }
        file = file + 1;
    }
    sprites
}

/// Lays out the legal-move overlay.
pub fn layout_overlay(selection: Option<Square>, legal: &Option<LegalMoves>) -> (dots: Vec<(i32, i32)>)
    ensures
        dots@ == overlay_dots(selection, *legal),
{
    let mut dots: Vec<(i32, i32)> = Vec::new();
    match (selection, legal) {
        (Some(sq), Some(moves)) => {
            if moves.origin.0 == sq.0 && moves.origin.1 == sq.1 {
                let mut i: usize = 0;
                while i < moves.targets.len()
                    invariant
                        i <= moves.targets@.len(),
                        dots@.len() == i,
                        forall|k: int| 0 <= k < i ==> dots@[k] == anchor_of(moves.targets@[k]),
                    decreases moves.targets@.len() - i,
                {
                    dots.push(cell_anchor(moves.targets[i]));
                    i = i + 1;
                }
            }
        },
        _ => {},
    }
    dots
}

/// Derives what the frame shows, and whether the engine is to be reset once
/// it has been drawn.
///
/// `check` holds the engine's check flags, white's first; `legal` holds the
/// legal destinations the engine gave for the selected square, if one is
/// selected. A reset is due in every frame that is derived while an outcome
/// is recorded.
pub fn derive_frame(
    grid: &Grid,
    selection: Option<Square>,
    pending_error: &Option<String>,
    outcome: Option<Side>,
    check: (bool, bool),
    legal: &Option<LegalMoves>,
) -> (frame: Frame)
    ensures
        text_of(frame.error_text) == text_of(*pending_error),
        frame.white == indicator_for(Side::White, outcome, check.0),
        frame.black == indicator_for(Side::Black, outcome, check.1),
        frame.highlight == selection,
        frame.sprites@ == board_sprites(*grid),
        frame.dots@ == overlay_dots(selection, *legal),
        frame.reset_after == outcome.is_some(),
{
    let error_text: Option<String> = match pending_error {
        Some(message) => Some(message.clone()),
        None => None,
    };
    Frame {
        error_text,
        white: indicator(Side::White, outcome, check.0),
        black: indicator(Side::Black, outcome, check.1),
        highlight: selection,
        sprites: layout_board(grid),
        dots: layout_overlay(selection, legal),
        reset_after: outcome.is_some(),
    }
}

impl Controller {
    /// Derives the frame for the controller's present state. To be called
    /// once per frame, after [`Controller::observe_mate`].
    pub fn frame(&self, grid: &Grid, check: (bool, bool), legal: &Option<LegalMoves>) -> (frame:
        Frame)
        ensures
            text_of(frame.error_text) == self@.pending_error,
            frame.white == indicator_for(Side::White, self@.outcome, check.0),
            frame.black == indicator_for(Side::Black, self@.outcome, check.1),
            frame.highlight == self@.selection,
            frame.sprites@ == board_sprites(*grid),
            frame.dots@ == overlay_dots(self@.selection, *legal),
            frame.reset_after == self@.reset_due(),
    {
        derive_frame(grid, self.selection(), self.pending_error(), self.outcome(), check, legal)
    }
}

/// A piece without legal destinations shows no dot, and neither do
/// destinations that were computed for another square than the selected one,
/// or any destinations while nothing is selected.
pub proof fn lemma_overlay_empty(selection: Option<Square>, legal: Option<LegalMoves>)
    requires
        selection is None || legal is None || legal->0.origin != selection->0
            || legal->0.targets@.len() == 0,
    ensures
        overlay_dots(selection, legal) == Seq::<(i32, i32)>::empty(),
{
}

/// The check flag of a side is passed on whatever the outcome. While an
/// outcome is recorded, the winner's or the loser's mark is drawn for the side
/// in place of the check mark; without one, the mark follows the check flag.
pub proof fn lemma_verdict_overrides_check(side: Side, outcome: Option<Side>, in_check: bool)
    ensures
        indicator_for(side, outcome, in_check).in_check == in_check,
        outcome == Some(side) ==> indicator_for(side, outcome, in_check).shown() == Marker::Winner,
        outcome == Some(side.opponent()) ==> indicator_for(side, outcome, in_check).shown()
            == Marker::Loser,
        outcome is None && in_check ==> indicator_for(side, outcome, in_check).shown()
            == Marker::Check,
        outcome is None && !in_check ==> indicator_for(side, outcome, in_check).shown()
            == Marker::Hidden,
{
}

} // verus!
