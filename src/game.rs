use vstd::prelude::*;

use crate::button::ButtonEvent;
use crate::collection::{moved_piece, Manipulation, PieceCollection};
use crate::path::PathMap;
use crate::piece::Piece;
use crate::position::Square;

verus! {

/// How long a move made by the player takes, in microseconds.
pub const ANIMATION_LENGTH: u64 = 350_000;

/// The number of moves a shuffle draws from.
pub const SHUFFLE_CHOICES: usize = 18;

/// The moves a shuffle draws from; a move and its opposite sit side by side.
pub open spec fn shuffle_choice(index: int) -> Manipulation {
    if index == 0 {
        Manipulation::RotateClockwise(0)
    } else if index == 1 {
        Manipulation::RotateAnticlockwise(0)
    } else if index == 2 {
        Manipulation::RotateClockwise(1)
    } else if index == 3 {
        Manipulation::RotateAnticlockwise(1)
    } else if index == 4 {
        Manipulation::RotateClockwise(2)
    } else if index == 5 {
        Manipulation::RotateAnticlockwise(2)
    } else if index == 6 {
        Manipulation::SlideLeft(3)
    } else if index == 7 {
        Manipulation::SlideRight(3)
    } else if index == 8 {
        Manipulation::SlideLeft(4)
    } else if index == 9 {
        Manipulation::SlideRight(4)
    } else if index == 10 {
        Manipulation::SlideLeft(5)
    } else if index == 11 {
        Manipulation::SlideRight(5)
    } else if index == 12 {
        Manipulation::SlideUp(3)
    } else if index == 13 {
        Manipulation::SlideDown(3)
    } else if index == 14 {
        Manipulation::SlideUp(4)
    } else if index == 15 {
        Manipulation::SlideDown(4)
    } else if index == 16 {
        Manipulation::SlideUp(5)
    } else {
        Manipulation::SlideDown(5)
    }
}

/// The move at `index` of the shuffle's choices.
pub fn shuffle_manipulation(index: usize) -> (r: Manipulation)
    requires
        index < SHUFFLE_CHOICES,
    ensures
        r == shuffle_choice(index as int),
        r.index_is_valid(),
{
    match index {
        0 => Manipulation::RotateClockwise(0),
        1 => Manipulation::RotateAnticlockwise(0),
        2 => Manipulation::RotateClockwise(1),
        3 => Manipulation::RotateAnticlockwise(1),
        4 => Manipulation::RotateClockwise(2),
        5 => Manipulation::RotateAnticlockwise(2),
        6 => Manipulation::SlideLeft(3),
        7 => Manipulation::SlideRight(3),
        8 => Manipulation::SlideLeft(4),
        9 => Manipulation::SlideRight(4),
        10 => Manipulation::SlideLeft(5),
        11 => Manipulation::SlideRight(5),
        12 => Manipulation::SlideUp(3),
        13 => Manipulation::SlideDown(3),
        14 => Manipulation::SlideUp(4),
        15 => Manipulation::SlideDown(4),
        16 => Manipulation::SlideUp(5),
        _ => Manipulation::SlideDown(5),
    }
}

/// The shuffle takes the choice that `draw` picks, unless it repeats the
/// last move or undoes it; then the draw is refused and another is needed.
pub fn next_shuffle_index(last_index: Option<usize>, draw: u32) -> (r: Option<usize>)
    ensures
        r == match last_index {
            Some(last) if (draw as int % SHUFFLE_CHOICES as int) / 2 == last as int / 2 => None,
            _ => Some((draw as int % SHUFFLE_CHOICES as int) as usize),
        },
        r matches Some(i) ==> i < SHUFFLE_CHOICES,
{
    let index = draw as usize % SHUFFLE_CHOICES;
    match last_index {
        Some(last) => {
            if index / 2 == last / 2 {
                None
            } else {
                Some(index)
            }
        },
        None => Some(index),
    }
}

/// The pieces after the move `m` of every one of them.
pub open(crate) spec fn moved_all(
    pieces: Seq<Piece>,
    m: Manipulation,
    paths: PathMap,
    animation_length: u64,
    now: u64,
) -> Seq<Piece> {
    pieces.map_values(|p: Piece| moved_piece(p, m, paths, animation_length, now))
}

/// The pieces after the moves of the pressed buttons, in order.
pub open(crate) spec fn after_events(pieces: Seq<Piece>, events: Seq<ButtonEvent>, paths: PathMap, now: u64) -> Seq<Piece>
    decreases events.len(),
{
    if events.len() == 0 {
        pieces
    } else {
        let ButtonEvent::Pressed(id) = events.last();
        moved_all(
            after_events(pieces, events.drop_last(), paths, now),
            id.manipulation_spec(),
            paths,
            ANIMATION_LENGTH,
            now,
        )
    }
}

/// Makes the move of each pressed button in order, each lasting
/// `ANIMATION_LENGTH` from `now` on.
pub fn handle_events(new_events: &[ButtonEvent], pieces: &mut PieceCollection, now: u64)
    requires
        forall|i: int|
            0 <= i < new_events@.len() ==> match #[trigger] new_events@[i] {
                ButtonEvent::Pressed(id) => id.manipulation_spec().index_is_valid(),
            },
    ensures
        final(pieces).paths_spec() == old(pieces).paths_spec(),
        final(pieces).pieces_spec() == after_events(
            old(pieces).pieces_spec(),
            new_events@,
            old(pieces).paths_spec(),
            now,
        ),
        forall|square: Square| #[trigger] final(pieces).flag(square) == old(pieces).flag(square),
{
    let mut i: usize = 0;
    while i < new_events.len()
        invariant
            0 <= i <= new_events@.len(),
            pieces.paths_spec() == old(pieces).paths_spec(),
            pieces.pieces_spec() == after_events(
                old(pieces).pieces_spec(),
                new_events@.subrange(0, i as int),
                old(pieces).paths_spec(),
                now,
            ),
            forall|square: Square| #[trigger] pieces.flag(square) == old(pieces).flag(square),
            forall|j: int|
                0 <= j < new_events@.len() ==> match #[trigger] new_events@[j] {
                    ButtonEvent::Pressed(id) => id.manipulation_spec().index_is_valid(),
                },
        decreases new_events@.len() - i,
    {
        match new_events[i] {
            ButtonEvent::Pressed(id) => {
                pieces.apply_manipulation(id.manipulation(), ANIMATION_LENGTH, now);
            },
        }
        proof {
            let done = new_events@.subrange(0, i as int + 1);
            assert(done.drop_last() =~= new_events@.subrange(0, i as int));
            assert(done.last() == new_events@[i as int]);
            assert(pieces.pieces_spec() =~= after_events(
                old(pieces).pieces_spec(),
                done,
                old(pieces).paths_spec(),
                now,
            ));
        }
        i += 1;
    }
    assert(new_events@.subrange(0, new_events@.len() as int) =~= new_events@);
}

} // verus!
