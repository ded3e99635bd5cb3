use vstd::prelude::*;

use crate::path::PathMap;
use crate::piece::{Animation, Piece};
use crate::position::{self, Position, Square};

verus! {

/// A move of the puzzle: a quarter turn of one ring (0 to 2), or a slide of
/// one middle-band row or column (3 to 5) by one region width.
#[derive(PartialEq, Eq, Structural, Copy, Clone, Debug)]
pub enum Manipulation {
    RotateClockwise(u8),
    RotateAnticlockwise(u8),
    SlideLeft(u8),
    SlideRight(u8),
    SlideUp(u8),
    SlideDown(u8),
}

/// A region whose solved state changed, and its new state.
#[derive(PartialEq, Eq, Structural, Copy, Clone, Debug)]
pub struct SquareStatusChanged {
    pub square: Square,
    pub solved: bool,
}

impl Manipulation {
    /// The index names a ring (0 to 2) or a middle-band row or column (3 to 5).
    pub open spec fn index_is_valid(self) -> bool {
        match self {
            Manipulation::RotateClockwise(k) | Manipulation::RotateAnticlockwise(k) => k < 3,
            Manipulation::SlideLeft(r) | Manipulation::SlideRight(r) => position::in_middle(r as int),
            Manipulation::SlideUp(c) | Manipulation::SlideDown(c) => position::in_middle(c as int),
        }
    }

    /// The move that each selected position makes.
    pub open spec fn single(self) -> position::Manipulation {
        match self {
            Manipulation::RotateClockwise(_) => position::Manipulation::RotateClockwise,
            Manipulation::RotateAnticlockwise(_) => position::Manipulation::RotateAnticlockwise,
            Manipulation::SlideLeft(_) => position::Manipulation::SlideLeft,
            Manipulation::SlideRight(_) => position::Manipulation::SlideRight,
            Manipulation::SlideUp(_) => position::Manipulation::SlideUp,
            Manipulation::SlideDown(_) => position::Manipulation::SlideDown,
        }
    }

    /// The move takes the piece at `p` along: it is on the ring, row or column.
    pub open(crate) spec fn selects(self, p: Position) -> bool {
        match self {
            Manipulation::RotateClockwise(k) | Manipulation::RotateAnticlockwise(k) => p.ring_spec()
                == Some(k),
            Manipulation::SlideLeft(r) | Manipulation::SlideRight(r) => p.row_spec() == r,
            Manipulation::SlideUp(c) | Manipulation::SlideDown(c) => p.col_spec() == c,
        }
    }

    /// Whether the index names a ring (0 to 2) or a middle-band row or column
    /// (3 to 5).
    pub fn has_valid_index(&self) -> (r: bool)
        ensures
            r == self.index_is_valid(),
    {
        match *self {
            Manipulation::RotateClockwise(k) | Manipulation::RotateAnticlockwise(k) => k < 3,
            Manipulation::SlideLeft(i) | Manipulation::SlideRight(i) | Manipulation::SlideUp(i)
            | Manipulation::SlideDown(i) => i >= 3 && i < 6,
        }
    }

    fn single_of(&self) -> (r: position::Manipulation)
        ensures
            r == self.single(),
    {
        match self {
            Manipulation::RotateClockwise(_) => position::Manipulation::RotateClockwise,
            Manipulation::RotateAnticlockwise(_) => position::Manipulation::RotateAnticlockwise,
            Manipulation::SlideLeft(_) => position::Manipulation::SlideLeft,
            Manipulation::SlideRight(_) => position::Manipulation::SlideRight,
            Manipulation::SlideUp(_) => position::Manipulation::SlideUp,
            Manipulation::SlideDown(_) => position::Manipulation::SlideDown,
        }
    }

    fn selects_position(&self, p: &Position) -> (r: bool)
        ensures
            r == self.selects(*p),
    {
        match self {
            Manipulation::RotateClockwise(k) | Manipulation::RotateAnticlockwise(k) => p.ring()
                == Some(*k),
            Manipulation::SlideLeft(r) | Manipulation::SlideRight(r) => p.row() == *r,
            Manipulation::SlideUp(c) | Manipulation::SlideDown(c) => p.col() == *c,
        }
    }
}

/// All pieces in `square` carry one color (an empty region counts as one color).
#[verifier::opaque]
pub open(crate) spec fn square_monochrome(pieces: Seq<Piece>, square: Square) -> bool {
    forall|i: int, j: int|
        #![trigger pieces[i].position_spec().square_spec(), pieces[j].position_spec().square_spec()]
        0 <= i < pieces.len() && 0 <= j < pieces.len() && pieces[i].position_spec().square_spec()
            == square && pieces[j].position_spec().square_spec() == square
            ==> pieces[i].color_spec() == pieces[j].color_spec()
}

/// The piece after the move `m` at `now`: a selected piece moves to its new
/// cell and starts along the table's path for the pair of cells; with no
/// such path it rests at the new cell at once.
pub open(crate) spec fn moved_piece(
    piece: Piece,
    m: Manipulation,
    paths: PathMap,
    animation_length: u64,
    now: u64,
) -> Piece {
    if m.selects(piece.position_spec()) {
        let from = piece.position_spec();
        let to = from.manipulated(m.single());
        Piece {
            position: to,
            animation: match paths.lookup(from, to) {
                Some(path) => Some(
                    Animation {
                        path,
                        movement_start: now,
                        movement_time: animation_length,
                        progress: 0,
                    },
                ),
                None => None,
            },
            ..piece
        }
    } else {
        piece
    }
}

/// All pieces of the puzzle, the table of their motions, and the solved state
/// of each region as of the last update.
pub struct PieceCollection<'a> {
    pub(crate) path_map: &'a PathMap,
    pub(crate) pieces: Vec<Piece>,
    pub(crate) south_solved: bool,
    pub(crate) north_solved: bool,
    pub(crate) center_solved: bool,
    pub(crate) east_solved: bool,
    pub(crate) west_solved: bool,
}

impl<'a> PieceCollection<'a> {
    /// The pieces, in the order they were given.
    pub open(crate) spec fn pieces_spec(self) -> Seq<Piece> {
        self.pieces@
    }

    /// The table of motions.
    pub open(crate) spec fn paths_spec(self) -> PathMap {
        *self.path_map
    }

    /// The stored solved state of `square`.
    pub open(crate) spec fn flag(self, square: Square) -> bool {
        match square {
            Square::North => self.north_solved,
            Square::South => self.south_solved,
            Square::Center => self.center_solved,
            Square::West => self.west_solved,
            Square::East => self.east_solved,
        }
    }

    /// Every stored solved state matches the colors of the pieces.
    pub open(crate) spec fn flags_in_sync(self) -> bool {
        forall|square: Square| #[trigger] self.flag(square) == square_monochrome(self.pieces_spec(), square)
    }

    pub open(crate) spec fn all_solved(self) -> bool {
        &&& self.flag(Square::North)
        &&& self.flag(Square::South)
        &&& self.flag(Square::Center)
        &&& self.flag(Square::West)
        &&& self.flag(Square::East)
    }

    /// The change of the stored solved state of `square` from `before` to
    /// `after`, if any.
    pub open(crate) spec fn change_of(before: Self, after: Self, square: Square) -> Seq<SquareStatusChanged> {
        if before.flag(square) != after.flag(square) {
            seq![SquareStatusChanged { square, solved: after.flag(square) }]
        } else {
            seq![]
        }
    }

    /// The changes of the stored solved states from `before` to `after`, in
    /// the order North, East, Center, West, South.
    pub open(crate) spec fn changes(before: Self, after: Self) -> Seq<SquareStatusChanged> {
        Self::change_of(before, after, Square::North) + Self::change_of(before, after, Square::East)
            + Self::change_of(before, after, Square::Center) + Self::change_of(before, after, Square::West)
            + Self::change_of(before, after, Square::South)
    }
}

/// Whether all pieces in `square` carry one color.
fn is_square_monochrome(pieces: &Vec<Piece>, square: Square) -> (r: bool)
    ensures
        r == square_monochrome(pieces@, square),
{
    reveal(square_monochrome);
    let mut first: Option<usize> = None;
    let mut i: usize = 0;
    while i < pieces.len()
        invariant
            0 <= i <= pieces@.len(),
            first matches None ==> forall|j: int|
                0 <= j < i ==> (#[trigger] pieces@[j].position_spec().square_spec()) != square,
            first matches Some(f) ==> {
                &&& f < i
                &&& pieces@[f as int].position_spec().square_spec() == square
                &&& forall|j: int|
                    0 <= j < i && (#[trigger] pieces@[j].position_spec().square_spec()) == square
                        ==> pieces@[j].color_spec() == pieces@[f as int].color_spec()
            },
        decreases pieces@.len() - i,
    {
        if pieces[i].position().square() == square {
            match first {
                None => {
                    first = Some(i);
                },
                Some(f) => {
                    if !pieces[i].has_same_color_as(&pieces[f]) {
                        proof {
                            reveal(square_monochrome);
                            assert(pieces@[i as int].position_spec().square_spec() == square);
                            assert(pieces@[i as int].color_spec() != pieces@[f as int].color_spec());
                        }
                        return false;
                    }
                },
            }
        }
        i += 1;
    }
    true
}

impl<'a> PieceCollection<'a> {
    /// The pieces with `path_map` as the table of their motions; each region's
    /// solved state is taken from the colors of its pieces.
    pub fn new(path_map: &'a PathMap, pieces: Vec<Piece>) -> (r: Self)
        ensures
            r.paths_spec() == *path_map,
            r.pieces_spec() == pieces@,
            r.flags_in_sync(),
    {
        let north_solved = is_square_monochrome(&pieces, Square::North);
        let south_solved = is_square_monochrome(&pieces, Square::South);
        let center_solved = is_square_monochrome(&pieces, Square::Center);
        let west_solved = is_square_monochrome(&pieces, Square::West);
        let east_solved = is_square_monochrome(&pieces, Square::East);
        let r = PieceCollection {
            path_map,
            pieces,
            south_solved,
            north_solved,
            center_solved,
            east_solved,
            west_solved,
        };
        assert forall|square: Square| #[trigger] r.flag(square) == square_monochrome(r.pieces@, square) by {
            match square {
                Square::North => {},
                Square::South => {},
                Square::Center => {},
                Square::West => {},
                Square::East => {},
            }
        }
        r
    }

    /// Moves every piece on the ring, row or column of `manipulation` as one
    /// batch, and starts each along the table's path for its old and new
    /// cell, over `animation_length` from `now` on. A piece whose pair of
    /// cells the table lacks rests at its new cell at once.
    pub fn apply_manipulation(&mut self, manipulation: Manipulation, animation_length: u64, now: u64)
        requires
            manipulation.index_is_valid(),
        ensures
            final(self).paths_spec() == old(self).paths_spec(),
            final(self).pieces_spec().len() == old(self).pieces_spec().len(),
            forall|i: int|
                0 <= i < old(self).pieces_spec().len() ==> #[trigger] final(self).pieces_spec()[i]
                    == moved_piece(
                    old(self).pieces_spec()[i],
                    manipulation,
                    old(self).paths_spec(),
                    animation_length,
                    now,
                ),
            forall|square: Square| #[trigger] final(self).flag(square) == old(self).flag(square),
    {
        let single = manipulation.single_of();
        let ghost start = self.pieces@;
        let mut i: usize = 0;
        while i < self.pieces.len()
            invariant
                0 <= i <= self.pieces@.len(),
                self.pieces@.len() == start.len(),
                self.path_map == old(self).path_map,
                self.north_solved == old(self).north_solved,
                self.south_solved == old(self).south_solved,
                self.center_solved == old(self).center_solved,
                self.west_solved == old(self).west_solved,
                self.east_solved == old(self).east_solved,
                start == old(self).pieces@,
                single == manipulation.single(),
                manipulation.index_is_valid(),
                forall|j: int|
                    0 <= j < i ==> #[trigger] self.pieces@[j] == moved_piece(
                        start[j],
                        manipulation,
                        *self.path_map,
                        animation_length,
                        now,
                    ),
                forall|j: int| i <= j < start.len() ==> #[trigger] self.pieces@[j] == start[j],
            decreases start.len() - i,
        {
            let piece = self.pieces[i];
            if manipulation.selects_position(piece.position()) {
                let from = *piece.position();
                let mut to = from;
                let result = to.apply_manipulation(single);
                assert(result.is_ok());
                let animation = match self.path_map.get(&from, &to) {
                    Some(path) => Some(
                        Animation {
                            path,
                            movement_start: now,
                            movement_time: animation_length,
                            progress: 0,
                        },
                    ),
                    None => None,
                };
                self.pieces.set(i, Piece { color: piece.color, position: to, animation });
            }
            i += 1;
        }
    }

    /// Advances every motion in flight to `now`.
    fn advance_pieces(&mut self, now: u64)
        ensures
            final(self).path_map == old(self).path_map,
            final(self).pieces@.len() == old(self).pieces@.len(),
            forall|i: int|
                0 <= i < old(self).pieces@.len() ==> #[trigger] final(self).pieces@[i]
                    == old(self).pieces@[i].updated(now),
            forall|square: Square| #[trigger] final(self).flag(square) == old(self).flag(square),
    {
        let ghost start = self.pieces@;
        let mut i: usize = 0;
        while i < self.pieces.len()
            invariant
                0 <= i <= self.pieces@.len(),
                self.pieces@.len() == start.len(),
                self.path_map == old(self).path_map,
                self.north_solved == old(self).north_solved,
                self.south_solved == old(self).south_solved,
                self.center_solved == old(self).center_solved,
                self.west_solved == old(self).west_solved,
                self.east_solved == old(self).east_solved,
                start == old(self).pieces@,
                forall|j: int| 0 <= j < i ==> #[trigger] self.pieces@[j] == start[j].updated(now),
                forall|j: int| i <= j < start.len() ==> #[trigger] self.pieces@[j] == start[j],
            decreases start.len() - i,
        {
            let mut piece = self.pieces[i];
            piece.update(now);
            self.pieces.set(i, piece);
            i += 1;
        }
    }

    /// Takes the solved state of `square` from the colors of its pieces and
    /// reports it if it changed.
    fn refresh_flag(&mut self, square: Square, events: &mut Vec<SquareStatusChanged>)
        ensures
            final(self).path_map == old(self).path_map,
            final(self).pieces == old(self).pieces,
            final(self).flag(square) == square_monochrome(old(self).pieces@, square),
            forall|other: Square| other != square ==> #[trigger] final(self).flag(other) == old(self).flag(other),
            final(events)@ == old(events)@ + Self::change_of(*old(self), *final(self), square),
    {
        let solved = is_square_monochrome(&self.pieces, square);
        if solved != self.is_square_solved(&square) {
            match square {
                Square::North => self.north_solved = solved,
                Square::South => self.south_solved = solved,
                Square::Center => self.center_solved = solved,
                Square::West => self.west_solved = solved,
                Square::East => self.east_solved = solved,
            }
            events.push(SquareStatusChanged { square, solved });
        }
        assert(events@ =~= old(events)@ + Self::change_of(*old(self), *self, square));
    }

    /// Takes each region's solved state from the colors of its pieces and
    /// reports those that changed.
    fn refresh_flags(&mut self) -> (r: Vec<SquareStatusChanged>)
        ensures
            final(self).path_map == old(self).path_map,
            final(self).pieces == old(self).pieces,
            final(self).flags_in_sync(),
            r@ == Self::changes(*old(self), *final(self)),
    {
        let mut events: Vec<SquareStatusChanged> = Vec::new();
        let ghost s0 = *self;
        self.refresh_flag(Square::North, &mut events);
        let ghost s1 = *self;
        self.refresh_flag(Square::East, &mut events);
        let ghost s2 = *self;
        self.refresh_flag(Square::Center, &mut events);
        let ghost s3 = *self;
        self.refresh_flag(Square::West, &mut events);
        let ghost s4 = *self;
        self.refresh_flag(Square::South, &mut events);
        assert(Self::change_of(s0, s1, Square::North) == Self::change_of(s0, *self, Square::North));
        assert(Self::change_of(s1, s2, Square::East) == Self::change_of(s0, *self, Square::East));
        assert(Self::change_of(s2, s3, Square::Center) == Self::change_of(s0, *self, Square::Center));
        assert(Self::change_of(s3, s4, Square::West) == Self::change_of(s0, *self, Square::West));
        assert(Self::change_of(s4, *self, Square::South) == Self::change_of(s0, *self, Square::South));
        assert forall|square: Square| #[trigger] self.flag(square) == square_monochrome(self.pieces_spec(), square) by {
            match square {
                Square::North => {},
                Square::South => {},
                Square::Center => {},
                Square::West => {},
                Square::East => {},
            }
        }
        assert(events@ =~= Self::changes(s0, *self));
        events
    }

    /// Advances every motion in flight to `now`, then takes each region's
    /// solved state from the colors of its pieces and reports those that
    /// changed, in the order North, East, Center, West, South.
    pub fn update(&mut self, now: u64) -> (r: Vec<SquareStatusChanged>)
        ensures
            final(self).paths_spec() == old(self).paths_spec(),
            final(self).pieces_spec().len() == old(self).pieces_spec().len(),
            forall|i: int|
                0 <= i < old(self).pieces_spec().len() ==> #[trigger] final(self).pieces_spec()[i]
                    == old(self).pieces_spec()[i].updated(now),
            final(self).flags_in_sync(),
            r@ == Self::changes(*old(self), *final(self)),
    {
        self.advance_pieces(now);
        let ghost middle = *self;
        let events = self.refresh_flags();
        assert(Self::changes(middle, *self) =~= Self::changes(*old(self), *self)) by {
            assert(forall|square: Square| #[trigger] middle.flag(square) == old(self).flag(square));
            assert(Self::change_of(middle, *self, Square::North) == Self::change_of(*old(self), *self, Square::North));
            assert(Self::change_of(middle, *self, Square::East) == Self::change_of(*old(self), *self, Square::East));
            assert(Self::change_of(middle, *self, Square::Center) == Self::change_of(*old(self), *self, Square::Center));
            assert(Self::change_of(middle, *self, Square::West) == Self::change_of(*old(self), *self, Square::West));
            assert(Self::change_of(middle, *self, Square::South) == Self::change_of(*old(self), *self, Square::South));
        }
        events
    }

    /// Some piece is in motion.
    pub fn is_animating(&self) -> (r: bool)
        ensures
            r == exists|i: int|
                0 <= i < self.pieces_spec().len() && (#[trigger] self.pieces_spec()[i]).animation_spec().is_some(),
    {
        let mut i: usize = 0;
        while i < self.pieces.len()
            invariant
                0 <= i <= self.pieces@.len(),
                forall|j: int| 0 <= j < i ==> (#[trigger] self.pieces@[j]).animation_spec().is_none(),
            decreases self.pieces@.len() - i,
        {
            if self.pieces[i].is_animating() {
                return true;
            }
            i += 1;
        }
        false
    }

    /// The pieces, in the order they were given.
    pub fn pieces(&self) -> (r: &Vec<Piece>)
        ensures
            r@ == self.pieces_spec(),
    {
        &self.pieces
    }

    /// The table of motions.
    pub fn path_map(&self) -> (r: &'a PathMap)
        ensures
            *r == self.paths_spec(),
    {
        self.path_map
    }

    /// All five regions were solved at the last update.
    pub fn is_solved(&self) -> (r: bool)
        ensures
            r == self.all_solved(),
    {
        self.east_solved && self.west_solved && self.north_solved && self.south_solved
            && self.center_solved
    }

    /// Whether `square` was solved at the last update.
    pub fn is_square_solved(&self, square: &Square) -> (r: bool)
        ensures
            r == self.flag(*square),
    {
        match square {
            Square::North => self.north_solved,
            Square::South => self.south_solved,
            Square::Center => self.center_solved,
            Square::West => self.west_solved,
            Square::East => self.east_solved,
        }
    }
}

/// Once the stored states are in sync (after construction or an update), a
/// region counts as solved exactly when no two of its pieces differ in color:
/// moving a piece of another color into a solved region clears its state,
/// and the state comes back only once the region is one color again.
pub proof fn lemma_square_flag_tracks_colors(c: PieceCollection, square: Square)
    requires
        c.flags_in_sync(),
    ensures
        c.flag(square) <==> forall|i: int, j: int|
            #![trigger c.pieces_spec()[i].position_spec().square_spec(), c.pieces_spec()[j].position_spec().square_spec()]
            0 <= i < c.pieces_spec().len() && 0 <= j < c.pieces_spec().len()
                && c.pieces_spec()[i].position_spec().square_spec() == square
                && c.pieces_spec()[j].position_spec().square_spec() == square
                ==> c.pieces_spec()[i].color_spec() == c.pieces_spec()[j].color_spec(),
{
    reveal(square_monochrome);
    assert(c.flag(square) == square_monochrome(c.pieces_spec(), square));
}

/// A collection in sync whose every region is one color is solved.
pub proof fn lemma_monochrome_regions_solved(c: PieceCollection)
    requires
        c.flags_in_sync(),
        forall|i: int, j: int|
            #![trigger c.pieces_spec()[i].position_spec().square_spec(), c.pieces_spec()[j].position_spec().square_spec()]
            0 <= i < c.pieces_spec().len() && 0 <= j < c.pieces_spec().len()
                && c.pieces_spec()[i].position_spec().square_spec()
                == c.pieces_spec()[j].position_spec().square_spec()
                ==> c.pieces_spec()[i].color_spec() == c.pieces_spec()[j].color_spec(),
    ensures
        c.all_solved(),
{
    reveal(square_monochrome);
    assert(c.flag(Square::North) == square_monochrome(c.pieces_spec(), Square::North));
    assert(c.flag(Square::South) == square_monochrome(c.pieces_spec(), Square::South));
    assert(c.flag(Square::Center) == square_monochrome(c.pieces_spec(), Square::Center));
    assert(c.flag(Square::West) == square_monochrome(c.pieces_spec(), Square::West));
    assert(c.flag(Square::East) == square_monochrome(c.pieces_spec(), Square::East));
}

/// The cells of ring `k` that hold a piece.
pub open(crate) spec fn ring_positions(pieces: Seq<Piece>, k: u8) -> Set<Position> {
    Set::new(
        |p: Position|
            exists|i: int|
                0 <= i < pieces.len() && (#[trigger] pieces[i]).position_spec() == p && p.ring_spec()
                    == Some(k),
    )
}

/// When every cell of ring `k` holds a piece, a clockwise turn of the ring
/// moves those pieces among exactly the same twelve cells.
pub proof fn lemma_ring_turn_keeps_ring_cells(
    before: Seq<Piece>,
    after: Seq<Piece>,
    k: u8,
    paths: PathMap,
    animation_length: u64,
    now: u64,
)
    requires
        k < 3,
        ring_positions(before, k) == position::ring_cells(k),
        after.len() == before.len(),
        forall|i: int|
            0 <= i < before.len() ==> #[trigger] after[i] == moved_piece(
                before[i],
                Manipulation::RotateClockwise(k),
                paths,
                animation_length,
                now,
            ),
    ensures
        ring_positions(after, k) == position::ring_cells(k),
        position::ring_cells(k).len() == 12,
{
    let m = Manipulation::RotateClockwise(k);
    let d = position::RotationDirection::Clockwise;
    position::lemma_rotation_permutes_ring(k, d);
    let cells = position::ring_cells(k);
    assert forall|q: Position| #[trigger] ring_positions(after, k).contains(q) <==> cells.contains(q) by {
        if ring_positions(after, k).contains(q) {
            let i = choose|i: int|
                0 <= i < after.len() && (#[trigger] after[i]).position_spec() == q && q.ring_spec()
                    == Some(k);
            let p = before[i].position_spec();
            if m.selects(p) {
                assert(ring_positions(before, k).contains(p));
                assert(cells.map(|c: Position| c.rotated(d)).contains(p.rotated(d)));
            } else {
                assert(after[i] == before[i]);
            }
        }
        if cells.contains(q) {
            let back = position::inverse_rotation(d);
            position::lemma_rotate_round_trip(q, back);
            position::lemma_rotation_keeps_ring(q, back);
            let p = q.rotated(back);
            assert(cells.contains(p));
            assert(ring_positions(before, k).contains(p));
            let i = choose|i: int|
                0 <= i < before.len() && (#[trigger] before[i]).position_spec() == p && p.ring_spec()
                    == Some(k);
            assert(after[i].position_spec() == q);
        }
    }
    assert(ring_positions(after, k) =~= cells);
}

} // verus!
