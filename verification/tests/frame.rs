use chess_controller::controller::Controller;
use chess_controller::frame::{
    derive_frame, indicator, layout_board, layout_overlay, sprite, Frame, Grid, Indicator,
    LegalMoves, Marker, Sprite, Verdict,
};
use chess_controller::pieces::{Cell, Ink, PieceKind, Side};

fn empty_cell() -> Cell {
    Cell { piece: None, side: Side::Black }
}

fn empty_grid() -> Grid {
    [[empty_cell(); 8]; 8]
}

fn marks(frame: &Frame) -> (Marker, Marker) {
    (frame.white.marker(), frame.black.marker())
}

#[test]
fn glyph_of_each_kind() {
    assert_eq!(PieceKind::Pawn.glyph(), 'P');
    assert_eq!(PieceKind::Knight.glyph(), 'N');
    assert_eq!(PieceKind::Bishop.glyph(), 'B');
    assert_eq!(PieceKind::Rook.glyph(), 'R');
    assert_eq!(PieceKind::Queen.glyph(), 'Q');
    assert_eq!(PieceKind::King.glyph(), 'K');
}

#[test]
fn ink_of_each_side() {
    assert_eq!(Side::White.ink(), Ink::Light);
    assert_eq!(Side::Black.ink(), Ink::Dark);
}

#[test]
fn indicator_without_outcome_mirrors_check() {
    for side in [Side::White, Side::Black] {
        assert_eq!(indicator(side, None, false), Indicator { in_check: false, verdict: None });
        assert_eq!(indicator(side, None, true), Indicator { in_check: true, verdict: None });
        assert_eq!(indicator(side, None, false).marker(), Marker::Hidden);
        assert_eq!(indicator(side, None, true).marker(), Marker::Check);
    }
}

#[test]
fn indicator_keeps_check_flag_under_an_outcome() {
    assert_eq!(
        indicator(Side::White, Some(Side::Black), true),
        Indicator { in_check: true, verdict: Some(Verdict::Loser) }
    );
    assert_eq!(
        indicator(Side::White, Some(Side::Black), false),
        Indicator { in_check: false, verdict: Some(Verdict::Loser) }
    );
    assert_eq!(
        indicator(Side::Black, Some(Side::Black), true),
        Indicator { in_check: true, verdict: Some(Verdict::Winner) }
    );
}

#[test]
fn verdict_overrides_check_mark() {
    for in_check in [false, true] {
        assert_eq!(indicator(Side::White, Some(Side::White), in_check).marker(), Marker::Winner);
        assert_eq!(indicator(Side::Black, Some(Side::White), in_check).marker(), Marker::Loser);
        assert_eq!(indicator(Side::White, Some(Side::Black), in_check).marker(), Marker::Loser);
        assert_eq!(indicator(Side::Black, Some(Side::Black), in_check).marker(), Marker::Winner);
    }
}

#[test]
fn marker_of_each_indicator() {
    assert_eq!(Indicator { in_check: false, verdict: None }.marker(), Marker::Hidden);
    assert_eq!(Indicator { in_check: true, verdict: None }.marker(), Marker::Check);
    assert_eq!(Indicator { in_check: true, verdict: Some(Verdict::Loser) }.marker(), Marker::Loser);
    assert_eq!(Indicator { in_check: false, verdict: Some(Verdict::Loser) }.marker(), Marker::Loser);
    assert_eq!(Indicator { in_check: true, verdict: Some(Verdict::Winner) }.marker(), Marker::Winner);
    assert_eq!(Indicator { in_check: false, verdict: Some(Verdict::Winner) }.marker(), Marker::Winner);
}

#[test]
fn sprite_of_an_occupied_square() {
    let cell = Cell { piece: Some(PieceKind::Knight), side: Side::White };
    assert_eq!(
        sprite((1, 7), cell),
        Sprite {
            square: (1, 7),
            outline: (34, 178),
            anchor: (40, 184),
            glyph: Some('N'),
            ink: Ink::Light,
        }
    );
}

#[test]
fn sprite_of_an_empty_square() {
    assert_eq!(
        sprite((0, 0), empty_cell()),
        Sprite { square: (0, 0), outline: (10, 10), anchor: (16, 16), glyph: None, ink: Ink::Dark }
    );
}

#[test]
fn board_has_one_sprite_per_square_file_by_file() {
    let mut grid = empty_grid();
    grid[2][5] = Cell { piece: Some(PieceKind::Queen), side: Side::White };
    grid[7][0] = Cell { piece: Some(PieceKind::Rook), side: Side::Black };
    let sprites = layout_board(&grid);
    assert_eq!(sprites.len(), 64);
    for file in 0u8..8 {
        for rank in 0u8..8 {
            let at = 8 * file as usize + rank as usize;
            assert_eq!(sprites[at], sprite((file, rank), grid[file as usize][rank as usize]));
        }
    }
    assert_eq!(sprites[21].glyph, Some('Q'));
    assert_eq!(sprites[21].ink, Ink::Light);
    assert_eq!(sprites[21].anchor, (64, 136));
    assert_eq!(sprites[56].glyph, Some('R'));
    assert_eq!(sprites[56].ink, Ink::Dark);
    assert_eq!(sprites[56].outline, (178, 10));
    assert_eq!(sprites[0].glyph, None);
    assert_eq!(sprites[1].square, (0, 1));
    assert_eq!(sprites[8].square, (1, 0));
    assert_eq!(sprites[63].square, (7, 7));
}

#[test]
fn overlay_has_one_dot_per_destination() {
    let legal = Some(LegalMoves { origin: (4, 6), targets: vec![(4, 5), (4, 4)] });
    assert_eq!(layout_overlay(Some((4, 6)), &legal), vec![(112, 136), (112, 112)]);
}

#[test]
fn overlay_keeps_the_order_and_repeats_of_the_engine() {
    let legal = Some(LegalMoves { origin: (0, 0), targets: vec![(7, 7), (0, 0), (7, 7)] });
    assert_eq!(
        layout_overlay(Some((0, 0)), &legal),
        vec![(184, 184), (16, 16), (184, 184)]
    );
}

#[test]
fn piece_without_destinations_shows_no_dot() {
    let legal = Some(LegalMoves { origin: (3, 3), targets: vec![] });
    assert_eq!(layout_overlay(Some((3, 3)), &legal), vec![]);
}

#[test]
fn destinations_of_another_square_are_not_shown() {
    let legal = Some(LegalMoves { origin: (4, 6), targets: vec![(4, 5), (4, 4)] });
    assert_eq!(layout_overlay(Some((3, 6)), &legal), vec![]);
    assert_eq!(layout_overlay(Some((4, 5)), &legal), vec![]);
    assert_eq!(layout_overlay(Some((6, 4)), &legal), vec![]);
}

#[test]
fn nothing_selected_shows_no_dot() {
    let legal = Some(LegalMoves { origin: (4, 6), targets: vec![(4, 5), (4, 4)] });
    assert_eq!(layout_overlay(None, &legal), vec![]);
    assert_eq!(layout_overlay(None, &None), vec![]);
}

#[test]
fn selection_without_destinations_shows_no_dot() {
    assert_eq!(layout_overlay(Some((4, 6)), &None), vec![]);
}

#[test]
fn frame_of_a_quiet_position() {
    let grid = empty_grid();
    let frame = derive_frame(&grid, None, &None, None, (false, false), &None);
    assert_eq!(
        frame,
        Frame {
            error_text: None,
            white: Indicator { in_check: false, verdict: None },
            black: Indicator { in_check: false, verdict: None },
            highlight: None,
            sprites: layout_board(&grid),
            dots: vec![],
            reset_after: false,
        }
    );
}

#[test]
fn frame_carries_error_text_verbatim() {
    let grid = empty_grid();
    let error = Some(String::from("Illegal move: e2 -> e5"));
    let frame = derive_frame(&grid, None, &error, None, (false, false), &None);
    assert_eq!(frame.error_text.as_deref(), Some("Illegal move: e2 -> e5"));
}

#[test]
fn frame_shows_check_per_side() {
    let grid = empty_grid();
    let frame = derive_frame(&grid, None, &None, None, (true, false), &None);
    assert_eq!(marks(&frame), (Marker::Check, Marker::Hidden));
    let frame = derive_frame(&grid, None, &None, None, (false, true), &None);
    assert_eq!(marks(&frame), (Marker::Hidden, Marker::Check));
    let frame = derive_frame(&grid, None, &None, None, (true, true), &None);
    assert_eq!(marks(&frame), (Marker::Check, Marker::Check));
    assert!(!frame.reset_after);
}

#[test]
fn frame_shows_winner_and_loser_together() {
    let grid = empty_grid();
    let frame = derive_frame(&grid, None, &None, Some(Side::Black), (true, false), &None);
    assert_eq!(marks(&frame), (Marker::Loser, Marker::Winner));
    assert!(frame.white.in_check);
    assert!(!frame.black.in_check);
    let frame = derive_frame(&grid, None, &None, Some(Side::White), (false, false), &None);
    assert_eq!(marks(&frame), (Marker::Winner, Marker::Loser));
}

#[test]
fn frame_asks_for_a_reset_exactly_under_an_outcome() {
    let grid = empty_grid();
    assert!(!derive_frame(&grid, None, &None, None, (true, true), &None).reset_after);
    assert!(derive_frame(&grid, None, &None, Some(Side::White), (false, false), &None).reset_after);
    assert!(derive_frame(&grid, None, &None, Some(Side::Black), (false, false), &None).reset_after);
}

#[test]
fn frame_shows_selection_and_its_destinations() {
    let mut grid = empty_grid();
    grid[4][6] = Cell { piece: Some(PieceKind::Pawn), side: Side::White };
    let legal = Some(LegalMoves { origin: (4, 6), targets: vec![(4, 5), (4, 4)] });
    let frame = derive_frame(&grid, Some((4, 6)), &None, None, (false, false), &legal);
    assert_eq!(frame.highlight, Some((4, 6)));
    assert_eq!(frame.dots, vec![(112, 136), (112, 112)]);
    assert_eq!(frame.sprites[38].glyph, Some('P'));
    assert_eq!(frame.sprites[38].square, (4, 6));
}

#[test]
fn frame_drops_destinations_of_an_earlier_selection() {
    let grid = empty_grid();
    let legal = Some(LegalMoves { origin: (4, 6), targets: vec![(4, 5), (4, 4)] });
    let frame = derive_frame(&grid, Some((0, 0)), &None, None, (false, false), &legal);
    assert_eq!(frame.highlight, Some((0, 0)));
    assert_eq!(frame.dots, vec![]);
    let frame = derive_frame(&grid, None, &None, None, (false, false), &legal);
    assert_eq!(frame.highlight, None);
    assert_eq!(frame.dots, vec![]);
}

#[test]
fn controller_frame_follows_its_state() {
    let mut grid = empty_grid();
    grid[1][2] = Cell { piece: Some(PieceKind::Bishop), side: Side::Black };
    let mut c = Controller::new();
    c.on_click(40, 64);
    c.record_move_result(Err(String::from("still shown")));
    c.observe_mate(false, true);
    let legal = Some(LegalMoves { origin: (1, 2), targets: vec![(2, 3)] });
    let frame = c.frame(&grid, (false, true), &legal);
    assert_eq!(
        frame,
        derive_frame(
            &grid,
            Some((1, 2)),
            &Some(String::from("still shown")),
            Some(Side::White),
            (false, true),
            &legal,
        )
    );
    assert_eq!(frame.highlight, Some((1, 2)));
    assert_eq!(frame.dots, vec![(64, 88)]);
    assert_eq!(frame.error_text.as_deref(), Some("still shown"));
    assert_eq!(marks(&frame), (Marker::Winner, Marker::Loser));
    assert!(frame.reset_after);
    assert_eq!(frame.sprites[10].glyph, Some('B'));
}
