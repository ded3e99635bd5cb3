use vstd::prelude::*;

use crate::collection::{lemma_monochrome_regions_solved, PieceCollection};
use crate::path::PathMap;
use crate::piece::{ColorTag, Piece};
use crate::position::{Position, Square};

verus! {

pub const COLOR_GREEN: ColorTag = 0;

pub const COLOR_PURPLE: ColorTag = 1;

pub const COLOR_YELLOW: ColorTag = 2;

pub const COLOR_BLUE: ColorTag = 3;

pub const COLOR_RED: ColorTag = 4;

/// The number of pieces of the puzzle.
pub const PIECE_COUNT: usize = 45;

/// The region that the starting group `g` fills: North, West, Center, East,
/// South.
pub open spec fn group_square(g: int) -> Square {
    if g == 0 {
        Square::North
    } else if g == 1 {
        Square::West
    } else if g == 2 {
        Square::Center
    } else if g == 3 {
        Square::East
    } else {
        Square::South
    }
}

/// The color of the starting group `g`.
pub open spec fn group_color(g: int) -> ColorTag {
    if g == 0 {
        COLOR_GREEN
    } else if g == 1 {
        COLOR_PURPLE
    } else if g == 2 {
        COLOR_YELLOW
    } else if g == 3 {
        COLOR_BLUE
    } else {
        COLOR_RED
    }
}

/// The top-left cell of the region of the starting group `g`.
pub open spec fn group_origin(g: int) -> (int, int) {
    if g == 0 {
        (0, 3)
    } else if g == 1 {
        (3, 0)
    } else if g == 2 {
        (3, 3)
    } else if g == 3 {
        (3, 6)
    } else {
        (6, 3)
    }
}

/// The starting cell of piece `i`: the groups fill their regions in turn,
/// each row by row.
pub open spec fn starting_cell(i: int) -> (int, int) {
    let (row, col) = group_origin(i / 9);
    (row + (i % 9) / 3, col + (i % 9) % 3)
}

fn group_of(g: usize) -> (r: (ColorTag, u8, u8))
    requires
        g < 5,
    ensures
        r.0 == group_color(g as int),
        (r.1 as int, r.2 as int) == group_origin(g as int),
{
    match g {
        0 => (COLOR_GREEN, 0, 3),
        1 => (COLOR_PURPLE, 3, 0),
        2 => (COLOR_YELLOW, 3, 3),
        3 => (COLOR_BLUE, 3, 6),
        _ => (COLOR_RED, 6, 3),
    }
}

/// The starting layout: every region filled with pieces of its own color,
/// at rest, with `paths` as the table of their motions. It is solved.
pub fn initialize_pieces<'a>(paths: &'a PathMap) -> (r: PieceCollection<'a>)
    ensures
        r.paths_spec() == *paths,
        r.pieces_spec().len() == PIECE_COUNT,
        forall|i: int|
            0 <= i < PIECE_COUNT ==> {
                let piece = #[trigger] r.pieces_spec()[i];
                &&& (piece.position_spec().row_spec(), piece.position_spec().col_spec())
                    == starting_cell(i)
                &&& piece.color_spec() == group_color(i / 9)
                &&& piece.animation_spec().is_none()
            },
        r.flags_in_sync(),
        r.all_solved(),
{
    let mut pieces: Vec<Piece> = Vec::new();
    let mut i: usize = 0;
    while i < PIECE_COUNT
        invariant
            0 <= i <= PIECE_COUNT,
            pieces@.len() == i,
            forall|j: int|
                0 <= j < i ==> {
                    let piece = #[trigger] pieces@[j];
                    &&& (piece.position_spec().row_spec(), piece.position_spec().col_spec())
                        == starting_cell(j)
                    &&& piece.color_spec() == group_color(j / 9)
                    &&& piece.animation_spec().is_none()
                    &&& piece.position_spec().square_spec() == group_square(j / 9)
                },
        decreases PIECE_COUNT - i,
    {
        let (color, row_offset, col_offset) = group_of(i / 9);
        let k = i % 9;
        let row = row_offset + (k / 3) as u8;
        let col = col_offset + (k % 3) as u8;
        let position = Position::new(row, col).unwrap();
        pieces.push(Piece::new(color, position));
        i += 1;
    }
    let r = PieceCollection::new(paths, pieces);
    proof {
        assert forall|a: int, b: int|
            #![trigger r.pieces_spec()[a].position_spec().square_spec(), r.pieces_spec()[b].position_spec().square_spec()]
            0 <= a < r.pieces_spec().len() && 0 <= b < r.pieces_spec().len()
                && r.pieces_spec()[a].position_spec().square_spec()
                == r.pieces_spec()[b].position_spec().square_spec()
                implies r.pieces_spec()[a].color_spec() == r.pieces_spec()[b].color_spec() by {
            assert(pieces@[a].position_spec().square_spec() == group_square(a / 9));
            assert(pieces@[b].position_spec().square_spec() == group_square(b / 9));
        }
        lemma_monochrome_regions_solved(r);
    }
    r
}

} // verus!
