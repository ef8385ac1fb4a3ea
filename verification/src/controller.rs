//! Click handling and game lifecycle.
//!
//! The controller never talks to the rules engine. A click that completes a
//! move yields a [`MoveRequest`]; the caller carries it to the engine and
//! reports the answer with [`Controller::record_move_result`]. Once per frame,
//! before the frame is derived, the caller reports the engine's checkmate
//! flags with [`Controller::observe_mate`].

use vstd::prelude::*;
use crate::geometry::{Square, on_board, grid_coords, to_grid_coords};
use crate::pieces::{PieceKind, Side};

verus! {

/// A move for the rules engine to attempt.
#[derive(Clone, Copy, Debug, PartialEq, Eq)]
pub struct MoveRequest {
    /// Square that was selected by the earlier click.
    pub from: Square,
    /// Square that was clicked now.
    pub to: Square,
    /// Piece to promote a pawn to; the controller never chooses one.
    pub promotion: Option<PieceKind>,
}

/// Text of an optional message.
pub open spec fn text_of(message: Option<String>) -> Option<Seq<char>> {
    match message {
        Some(m) => Some(m@),
        None => None,
    }
}

/// The engine's answer to a move request, with a rejection's message as text.
pub open spec fn answer_of(result: Result<(), String>) -> Result<(), Seq<char>> {
    match result {
        Ok(_) => Ok(()),
        Err(message) => Err(message@),
    }
}

/// The side that one frame's checkmate flags report as mated, if any. White's
/// flag is read first.
pub open spec fn mated_side(white_mated: bool, black_mated: bool) -> Option<Side> {
    if white_mated {
        Some(Side::White)
    } else if black_mated {
        Some(Side::Black)
    } else {
        None
    }
}

/// Mathematical state of a [`Controller`].
pub struct ControllerView {
    /// Origin square chosen by the last click, awaiting a destination.
    pub selection: Option<Square>,
    /// Message of the rejected move attempt, until the next click.
    pub pending_error: Option<Seq<char>>,
    /// Winner of the game, from the frame a mate was seen to the next click.
    pub outcome: Option<Side>,
}

impl ControllerView {
    /// The selection, if any, is a square of the board.
    pub open spec fn valid(self) -> bool {
        self.selection matches Some(sq) ==> on_board(sq)
    }

    /// State of a new game: nothing selected, no error, no outcome.
    pub open spec fn initial() -> ControllerView {
        ControllerView { selection: None, pending_error: None, outcome: None }
    }

    /// Selection after a click at pixel `(x, y)`: a click off the board or a
    /// click that completes a move leaves nothing selected; a first click on
    /// the board selects its square.
    pub open spec fn selection_after_click(self, x: int, y: int) -> Option<Square> {
        if self.selection.is_some() {
            None
        } else {
            grid_coords(x, y)
        }
    }

    /// Move that a click at pixel `(x, y)` asks for: from the selected square
    /// to the clicked one, when both exist.
    pub open spec fn request_on_click(self, x: int, y: int) -> Option<MoveRequest> {
        match (self.selection, grid_coords(x, y)) {
            (Some(from), Some(to)) => Some(MoveRequest { from, to, promotion: None }),
            _ => None,
        }
    }

    /// State after a click at pixel `(x, y)`. Every click drops the pending
    /// error and the outcome.
    pub open spec fn click(self, x: int, y: int) -> ControllerView {
        ControllerView {
            selection: self.selection_after_click(x, y),
            pending_error: None,
            outcome: None,
        }
    }

    /// State after the engine answered a move request: a rejection's message
    /// becomes the pending error, an accepted move changes nothing.
    pub open spec fn move_result(self, answer: Result<(), Seq<char>>) -> ControllerView {
        match answer {
            Ok(_) => self,
            Err(message) => ControllerView { pending_error: Some(message), ..self },
        }
    }

    /// State after one frame's checkmate flags were seen. The first mate seen
    /// makes the opponent of the mated side the winner; a recorded outcome is
    /// kept whatever the flags say.
    pub open spec fn observe_mate(self, white_mated: bool, black_mated: bool) -> ControllerView {
        match (self.outcome, mated_side(white_mated, black_mated)) {
            (None, Some(loser)) => ControllerView { outcome: Some(loser.opponent()), ..self },
            _ => self,
        }
    }

    /// State after the checkmate flags of several frames in a row were seen.
    pub open spec fn observe_frames(self, flags: Seq<(bool, bool)>) -> ControllerView
        decreases flags.len(),
    {
        if flags.len() == 0 {
            self
        } else {
            self.observe_frames(flags.drop_last()).observe_mate(flags.last().0, flags.last().1)
        }
    }

    /// A frame derived in this state asks for a reset of the engine once it
    /// has been drawn.
    pub open spec fn reset_due(self) -> bool {
        self.outcome.is_some()
    }
}

/// Selection, pending error and outcome of one game on screen.
#[derive(Debug)]
pub struct Controller {
    selected: Option<Square>,
    err: Option<String>,
    winner: Option<Side>,
}

impl View for Controller {
    type V = ControllerView;

    closed spec fn view(&self) -> ControllerView {
        ControllerView {
            selection: self.selected,
            pending_error: text_of(self.err),
            outcome: self.winner,
        }
    }
}

impl Controller {
    #[verifier::type_invariant]
    spec fn selection_on_board(self) -> bool {
        self.selected matches Some(sq) ==> on_board(sq)
    }

    /// A controller for a new game.
    pub fn new() -> (c: Controller)
        ensures
            c@ == ControllerView::initial(),
    {
        Controller { selected: None, err: None, winner: None }
    }

    /// The selected square, if any.
    pub fn selection(&self) -> (r: Option<Square>)
        ensures
            r == self@.selection,
            self@.valid(),
    {
        proof {
            use_type_invariant(self);
        }
        self.selected
    }

    /// The message of the last rejected move, if no click followed it yet.
    pub fn pending_error(&self) -> (r: &Option<String>)
        ensures
            text_of(*r) == self@.pending_error,
    {
        &self.err
    }

    /// The winner, if a mate was seen and no click followed it yet.
    pub fn outcome(&self) -> (r: Option<Side>)
        ensures
            r == self@.outcome,
    {
        self.winner
    }

    /// Handles one press of the pointer button at pixel `(x, y)`.
    ///
    /// Returns the move to attempt, if the click completed one. The caller
    /// reports the engine's answer with [`Controller::record_move_result`].
    pub fn on_click(&mut self, x: i32, y: i32) -> (request: Option<MoveRequest>)
        ensures
            final(self)@ == old(self)@.click(x as int, y as int),
            request == old(self)@.request_on_click(x as int, y as int),
            final(self)@.pending_error is None,
            final(self)@.outcome is None,
            final(self)@.valid(),
            request matches Some(m) ==> on_board(m.from) && on_board(m.to),
    {
        proof {
            use_type_invariant(&*self);
        }
        self.err = None;
        self.winner = None;
        let from = self.selected;
        self.selected = None;
        match to_grid_coords(x, y) {
            None => None,
            Some(to) => match from {
                Some(from) => Some(MoveRequest { from, to, promotion: None }),
                None => {
                    self.selected = Some(to);
                    None
                },
            },
        }
    }

    /// Records the engine's answer to a move request. A rejection's message
    /// becomes the pending error; an accepted move changes nothing here.
    pub fn record_move_result(&mut self, result: Result<(), String>)
        ensures
            final(self)@ == old(self)@.move_result(answer_of(result)),
    {
        proof {
            use_type_invariant(&*self);
        }
        match result {
            Ok(_) => {},
            Err(message) => {
                self.err = Some(message);
            },
        }
    }

    /// Takes in one frame's checkmate flags, white's first, before the frame
    /// is derived.
    pub fn observe_mate(&mut self, white_mated: bool, black_mated: bool)
        ensures
            final(self)@ == old(self)@.observe_mate(white_mated, black_mated),
    {
        proof {
            use_type_invariant(&*self);
        }
        if self.winner.is_none() {
            if white_mated {
                self.winner = Some(Side::White.other());
            } else if black_mated {
                self.winner = Some(Side::Black.other());
            }
        }
    }
}

/// A new game starts in a valid state, every transition keeps a valid state
/// valid, and a move is only ever asked for between squares of the board.
pub proof fn lemma_validity_is_kept(
    s: ControllerView,
    x: int,
    y: int,
    answer: Result<(), Seq<char>>,
    white_mated: bool,
    black_mated: bool,
)
    requires
        s.valid(),
    ensures
        ControllerView::initial().valid(),
        s.click(x, y).valid(),
        s.move_result(answer).valid(),
        s.observe_mate(white_mated, black_mated).valid(),
        s.request_on_click(x, y) matches Some(m) ==> on_board(m.from) && on_board(m.to),
{
}

/// An error is pending only after a rejected move: no click and no frame
/// raises one, an accepted move raises none, and every click, wherever it
/// lands, drops the one that is pending.
pub proof fn lemma_error_lives_until_next_click(
    s: ControllerView,
    x: int,
    y: int,
    white_mated: bool,
    black_mated: bool,
)
    ensures
        s.click(x, y).pending_error is None,
        s.observe_mate(white_mated, black_mated).pending_error == s.pending_error,
        s.move_result(Ok(())).pending_error == s.pending_error,
{
}

/// An outcome is recorded only by a frame that reports a mate: no click and
/// no answer of the engine records one.
pub proof fn lemma_outcome_only_from_mate(
    s: ControllerView,
    x: int,
    y: int,
    answer: Result<(), Seq<char>>,
)
    ensures
        s.click(x, y).outcome is None,
        s.move_result(answer).outcome == s.outcome,
        s.observe_mate(false, false).outcome == s.outcome,
{
}

/// Frames that pass change neither the selection nor the pending error.
pub proof fn lemma_frames_change_outcome_only(s: ControllerView, flags: Seq<(bool, bool)>)
    ensures
        s.observe_frames(flags).selection == s.selection,
        s.observe_frames(flags).pending_error == s.pending_error,
    decreases flags.len(),
{
    if flags.len() > 0 {
        lemma_frames_change_outcome_only(s, flags.drop_last());
    }
}

/// A recorded outcome stays through any number of frames, whatever checkmate
/// flags they report.
pub proof fn lemma_recorded_outcome_stays(s: ControllerView, flags: Seq<(bool, bool)>)
    requires
        s.outcome is Some,
    ensures
        s.observe_frames(flags).outcome == s.outcome,
    decreases flags.len(),
{
    if flags.len() > 0 {
        lemma_recorded_outcome_stays(s, flags.drop_last());
    }
}

/// Frames that report no mate record no outcome.
pub proof fn lemma_quiet_frames_record_nothing(s: ControllerView, flags: Seq<(bool, bool)>)
    requires
        s.outcome is None,
        forall|i: int| 0 <= i < flags.len() ==> !flags[i].0 && !flags[i].1,
    ensures
        s.observe_frames(flags) == s,
    decreases flags.len(),
{
    if flags.len() > 0 {
        lemma_quiet_frames_record_nothing(s, flags.drop_last());
    }
}

/// The frame that first reports a mate records the opponent of the mated side
/// as the winner and makes a reset due in that same frame. The outcome then
/// stays through any later frames, whatever they report, with a reset due in
/// each, until the next click, wherever it lands, drops it.
pub proof fn lemma_outcome_latched(
    s: ControllerView,
    white_mated: bool,
    black_mated: bool,
    later: Seq<(bool, bool)>,
    x: int,
    y: int,
)
    requires
        s.outcome is None,
        white_mated || black_mated,
    ensures
        ({
            let seen = s.observe_mate(white_mated, black_mated);
            let loser = mated_side(white_mated, black_mated)->0;
            &&& seen.outcome == Some(loser.opponent())
            &&& seen.reset_due()
            &&& seen.observe_frames(later).outcome == seen.outcome
            &&& seen.observe_frames(later).reset_due()
            &&& seen.observe_frames(later).click(x, y).outcome is None
            &&& !seen.observe_frames(later).click(x, y).reset_due()
        }),
{
    lemma_recorded_outcome_stays(s.observe_mate(white_mated, black_mated), later);
}

/// With nothing selected, a click on the board selects its square and asks
/// for no move. After any number of frames, a second click on the board asks
/// for exactly the move from the first square to the second, without a
/// promotion choice. When the engine rejects that move, nothing is selected
/// any more, the engine's message is the pending error, and no reset is due:
/// the rejected attempt is all the engine was asked to do.
pub proof fn lemma_rejected_move(
    s: ControllerView,
    first: (int, int),
    between: Seq<(bool, bool)>,
    second: (int, int),
    message: Seq<char>,
)
    requires
        s.selection is None,
        grid_coords(first.0, first.1) is Some,
        grid_coords(second.0, second.1) is Some,
    ensures
        ({
            let selected = s.click(first.0, first.1).observe_frames(between);
            let done = selected.click(second.0, second.1).move_result(Err(message));
            &&& s.request_on_click(first.0, first.1) is None
            &&& selected.selection == grid_coords(first.0, first.1)
            &&& selected.request_on_click(second.0, second.1) == Some(
                MoveRequest {
                    from: grid_coords(first.0, first.1)->0,
                    to: grid_coords(second.0, second.1)->0,
                    promotion: None,
                },
            )
            &&& done.selection is None
            &&& done.pending_error == Some(message)
            &&& !done.reset_due()
        }),
{
    lemma_frames_change_outcome_only(s.click(first.0, first.1), between);
}

/// With nothing selected, a click on the board followed, after any number of
/// frames, by a second click on the board asks for exactly the move from the
/// first square to the second. When the engine accepts it, nothing is
/// selected and no error is pending.
pub proof fn lemma_accepted_move(
    s: ControllerView,
    first: (int, int),
    between: Seq<(bool, bool)>,
    second: (int, int),
)
    requires
        s.selection is None,
        grid_coords(first.0, first.1) is Some,
        grid_coords(second.0, second.1) is Some,
    ensures
        ({
            let selected = s.click(first.0, first.1).observe_frames(between);
            let done = selected.click(second.0, second.1).move_result(Ok(()));
            &&& selected.request_on_click(second.0, second.1) == Some(
                MoveRequest {
                    from: grid_coords(first.0, first.1)->0,
                    to: grid_coords(second.0, second.1)->0,
                    promotion: None,
                },
            )
            &&& done.selection is None
            &&& done.pending_error is None
        }),
{
    lemma_frames_change_outcome_only(s.click(first.0, first.1), between);
}

} // verus!
