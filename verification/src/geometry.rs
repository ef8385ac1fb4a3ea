//! Fixed board layout: where the cells lie in the window, and which cell a
//! pointer position falls into.

use vstd::prelude::*;

verus! {

/// Number of files, and of ranks, on the board.
pub const BOARD_SIDE: u8 = 8;

/// Edge length of one cell, in pixels.
pub const CELL_SIZE: i32 = 24;

/// Offset subtracted from a pointer coordinate before it is divided into cells.
pub const MARGIN: i32 = 16;

/// First coordinate past the board on either axis: the margin plus eight cells.
pub const BOARD_EXTENT: i32 = MARGIN + 8 * CELL_SIZE;

/// Offset of the first cell's outline from the window's origin.
pub const OUTLINE_INSET: i32 = 10;

/// A square as `(file, rank)`, both counted from zero.
pub type Square = (u8, u8);

/// Both coordinates of `sq` lie on the board.
pub open spec fn on_board(sq: Square) -> bool {
    sq.0 < BOARD_SIDE && sq.1 < BOARD_SIDE
}

/// Quotient of `a` by a positive `b`, rounded toward zero.
pub open spec fn div_toward_zero(a: int, b: int) -> int {
    if a >= 0 {
        a / b
    } else {
        -((-a) / b)
    }
}

/// The pixel coordinate `p` lies within the board's extent on its axis.
pub open spec fn inside_extent(p: int) -> bool {
    0 <= p < BOARD_EXTENT
}

/// File (or rank) that the pixel coordinate `p` falls into.
pub open spec fn cell_index(p: int) -> int {
    div_toward_zero(p - MARGIN, CELL_SIZE as int)
}

/// Square under the pixel `(x, y)`, if the pixel lies inside the board's extent.
pub open spec fn grid_coords(x: int, y: int) -> Option<Square> {
    if inside_extent(x) && inside_extent(y) {
        Some((cell_index(x) as u8, cell_index(y) as u8))
    } else {
        None
    }
}

/// File (or rank) of a coordinate that lies inside the board's extent.
fn axis_cell(p: i32) -> (i: u8)
    requires
        inside_extent(p as int),
    ensures
        i == cell_index(p as int),
        i < BOARD_SIDE,
{
    let q: i32 = (p - MARGIN) / CELL_SIZE;
    q as u8
}

/// Maps a pointer position to the square under it.
///
/// A position with a negative coordinate, or with a coordinate at or past
/// [`BOARD_EXTENT`], lies outside the board and maps to no square. Any other
/// position maps to the square whose file and rank are its coordinates less
/// the margin, divided by the cell size and rounded toward zero; the pixels
/// of the margin therefore count as the first file or rank.
pub fn to_grid_coords(x: i32, y: i32) -> (r: Option<(u8, u8)>)
    ensures
        r == grid_coords(x as int, y as int),
        r.is_some() <==> inside_extent(x as int) && inside_extent(y as int),
        r matches Some(sq) ==> on_board(sq),
{
    if x < 0 || y < 0 || x >= BOARD_EXTENT || y >= BOARD_EXTENT {
        return None;
    }
    Some((axis_cell(x), axis_cell(y)))
}

/// The mapper finds a square for exactly the pixels inside the board's
/// extent, and every square it finds lies on the board.
pub proof fn lemma_mapper_covers_extent(x: int, y: int)
    ensures
        grid_coords(x, y) is Some <==> inside_extent(x) && inside_extent(y),
        grid_coords(x, y) matches Some(sq) ==> on_board(sq),
{
}

/// Pixel at which the glyph of the square `sq`, and a dot on it, is placed.
pub open spec fn anchor_of(sq: Square) -> (i32, i32) {
    ((sq.0 * CELL_SIZE + MARGIN) as i32, (sq.1 * CELL_SIZE + MARGIN) as i32)
}

/// Top-left pixel of the outline drawn for the square `sq`.
pub open spec fn outline_of(sq: Square) -> (i32, i32) {
    ((sq.0 * CELL_SIZE + OUTLINE_INSET) as i32, (sq.1 * CELL_SIZE + OUTLINE_INSET) as i32)
}

/// Pixel at which the glyph of the square `sq`, and a dot on it, is placed.
pub fn cell_anchor(sq: Square) -> (p: (i32, i32))
    ensures
        p == anchor_of(sq),
        p.0 == sq.0 * CELL_SIZE + MARGIN,
        p.1 == sq.1 * CELL_SIZE + MARGIN,
{
    let x: i32 = sq.0 as i32 * CELL_SIZE + MARGIN;
    let y: i32 = sq.1 as i32 * CELL_SIZE + MARGIN;
    (x, y)
}

/// Top-left pixel of the outline drawn for the square `sq`.
pub fn cell_outline(sq: Square) -> (p: (i32, i32))
    ensures
        p == outline_of(sq),
        p.0 == sq.0 * CELL_SIZE + OUTLINE_INSET,
        p.1 == sq.1 * CELL_SIZE + OUTLINE_INSET,
{
    let x: i32 = sq.0 as i32 * CELL_SIZE + OUTLINE_INSET;
    let y: i32 = sq.1 as i32 * CELL_SIZE + OUTLINE_INSET;
    (x, y)
}

/// A click anywhere in the cell that starts at a square's anchor lands on
/// that square: the mapper inverts the layout.
pub proof fn lemma_cell_pixels_map_back(sq: Square, dx: int, dy: int)
    requires
        on_board(sq),
        0 <= dx < CELL_SIZE,
        0 <= dy < CELL_SIZE,
    ensures
        grid_coords(anchor_of(sq).0 + dx, anchor_of(sq).1 + dy) == Some(sq),
{
}

/// Pixels of the margin before the first cell count as the first file or
/// rank: the quotient is rounded toward zero.
pub proof fn lemma_margin_belongs_to_first_cell(p: int)
    requires
        0 <= p < MARGIN,
    ensures
        inside_extent(p),
        cell_index(p) == 0,
{
}

} // verus!
