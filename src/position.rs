use vstd::prelude::*;

verus! {

/// Side length of the full square grid that the cross lives in.
pub const DIMENSION: u8 = 9;

/// Side length of one of the five regions of the cross.
pub const SQUARE_SIZE: u8 = 3;

/// Why a position could not be built or moved.
#[derive(PartialEq, Eq, Structural, Copy, Clone, Debug)]
#[non_exhaustive]
pub enum PieceError {
    /// The coordinates lie outside the cross.
    InvalidRowCol,
    /// A position of the center region cannot rotate.
    CantRotate,
    /// The slide runs along an axis that is not in the middle band.
    CantSlide,
}

impl PieceError {
    /// A sentence that describes the error.
    pub fn message(&self) -> (r: &'static str)
        ensures
            r@ == match self {
                PieceError::InvalidRowCol => "Invalid combination of row and column"@,
                PieceError::CantRotate => "Trying to rotate a piece in the center square"@,
                PieceError::CantSlide => "Trying to slide a piece in invalid direction"@,
            },
    {
        match self {
            PieceError::InvalidRowCol => "Invalid combination of row and column",
            PieceError::CantRotate => "Trying to rotate a piece in the center square",
            PieceError::CantSlide => "Trying to slide a piece in invalid direction",
        }
    }
}

/// A single-position move, without the index of the ring, row or column.
#[derive(PartialEq, Eq, Structural, Copy, Clone, Debug)]
pub enum Manipulation {
    RotateClockwise,
    RotateAnticlockwise,
    SlideLeft,
    SlideRight,
    SlideUp,
    SlideDown,
}

/// One of the five 3x3 regions of the cross.
#[derive(PartialEq, Eq, Structural, Copy, Clone, Debug, Hash)]
pub enum Square {
    North,
    South,
    Center,
    West,
    East,
}

#[derive(PartialEq, Eq, Structural, Copy, Clone, Debug)]
pub enum RotationDirection {
    Clockwise,
    Anticlockwise,
}

#[derive(PartialEq, Eq, Structural, Copy, Clone, Debug)]
pub enum SlideDirection {
    Left,
    Right,
    Up,
    Down,
}

/// A cell of the cross-shaped board: always one of the cells of the cross.
#[derive(PartialEq, Eq, Structural, Hash, Copy, Clone, Debug)]
pub struct Position {
    pub(crate) row: u8,
    pub(crate) col: u8,
}

/// Whether a coordinate lies in the middle band `[3, 6)`.
pub open spec fn in_middle(c: int) -> bool {
    SQUARE_SIZE <= c < 2 * SQUARE_SIZE
}

/// Whether `(row, col)` is a cell of the cross: inside the 9x9 grid, with the
/// row or the column in the middle band.
pub open spec fn is_valid_cell(row: int, col: int) -> bool {
    &&& 0 <= row < DIMENSION
    &&& 0 <= col < DIMENSION
    &&& (in_middle(row) || in_middle(col))
}

pub open spec fn inverse_rotation(d: RotationDirection) -> RotationDirection {
    match d {
        RotationDirection::Clockwise => RotationDirection::Anticlockwise,
        RotationDirection::Anticlockwise => RotationDirection::Clockwise,
    }
}

pub open spec fn opposite_slide(d: SlideDirection) -> SlideDirection {
    match d {
        SlideDirection::Left => SlideDirection::Right,
        SlideDirection::Right => SlideDirection::Left,
        SlideDirection::Up => SlideDirection::Down,
        SlideDirection::Down => SlideDirection::Up,
    }
}

/// A quarter turn followed by the opposite quarter turn leaves every outer
/// position where it was; the turned position is itself an outer one, so the
/// second turn succeeds.
pub proof fn lemma_rotate_round_trip(p: Position, d: RotationDirection)
    requires
        p.is_valid(),
        !p.is_center(),
    ensures
        p.rotated(d).is_valid(),
        !p.rotated(d).is_center(),
        p.rotated(d).rotated(inverse_rotation(d)) == p,
{
}

/// A slide followed by the opposite slide along the same row or column leaves
/// the position where it was; the opposite slide is possible after the first.
pub proof fn lemma_slide_round_trip(p: Position, d: SlideDirection)
    requires
        p.is_valid(),
        p.can_slide(d),
    ensures
        p.slid(d).is_valid(),
        p.slid(d).can_slide(opposite_slide(d)),
        p.slid(d).slid(opposite_slide(d)) == p,
{
}

/// A quarter turn keeps the ring of an outer position and moves it to another
/// region.
pub proof fn lemma_rotation_keeps_ring(p: Position, d: RotationDirection)
    requires
        p.is_valid(),
        !p.is_center(),
    ensures
        p.rotated(d).ring_spec() == p.ring_spec(),
        p.rotated(d).square_spec() != p.square_spec(),
{
}

/// The positions of ring `k`.
pub open(crate) spec fn ring_cells(k: u8) -> Set<Position> {
    Set::new(|p: Position| p.is_valid() && p.ring_spec() == Some(k))
}

/// The twelve positions of ring `k`, region by region.
pub open(crate) spec fn ring_listing(k: u8) -> Seq<Position> {
    let near = (SQUARE_SIZE - 1 - k) as u8;
    let far = (2 * SQUARE_SIZE + k) as u8;
    seq![
        Position { row: near, col: 3 }, Position { row: near, col: 4 }, Position { row: near, col: 5 },
        Position { row: 3, col: far }, Position { row: 4, col: far }, Position { row: 5, col: far },
        Position { row: far, col: 3 }, Position { row: far, col: 4 }, Position { row: far, col: 5 },
        Position { row: 3, col: near }, Position { row: 4, col: near }, Position { row: 5, col: near },
    ]
}

/// Ring `k` holds exactly twelve positions, and a quarter turn in either
/// direction maps them one to one onto themselves.
pub proof fn lemma_rotation_permutes_ring(k: u8, d: RotationDirection)
    requires
        k < 3,
    ensures
        ring_cells(k).len() == 12,
        ring_cells(k).map(|p: Position| p.rotated(d)) == ring_cells(k),
        forall|p: Position, q: Position|
            #![trigger ring_cells(k).contains(p), ring_cells(k).contains(q), p.rotated(d), q.rotated(d)]
            ring_cells(k).contains(p) && ring_cells(k).contains(q) && p.rotated(d) == q.rotated(d)
                ==> p == q,
{
    let cells = ring_cells(k);
    let listing = ring_listing(k);
    assert(listing.no_duplicates());
    assert forall|p: Position| #[trigger] cells.contains(p) <==> listing.contains(p) by {
        if cells.contains(p) {
            let i: int = if p.row < 3 {
                p.col - 3
            } else if p.col >= 6 {
                3 + p.row - 3
            } else if p.row >= 6 {
                6 + p.col - 3
            } else {
                9 + p.row - 3
            };
            assert(listing[i] == p);
        }
        if listing.contains(p) {
            let i = choose|i: int| 0 <= i < listing.len() && listing[i] == p;
            assert(0 <= i < 12);
        }
    }
    assert(cells =~= listing.to_set());
    listing.unique_seq_to_set();
    let image = cells.map(|p: Position| p.rotated(d));
    assert forall|q: Position| #[trigger] image.contains(q) <==> cells.contains(q) by {
        if cells.contains(q) {
            lemma_rotate_round_trip(q, inverse_rotation(d));
            lemma_rotation_keeps_ring(q, inverse_rotation(d));
            let p = q.rotated(inverse_rotation(d));
            assert(inverse_rotation(inverse_rotation(d)) == d);
            assert(cells.contains(p));
            assert(p.rotated(d) == q);
        }
        if image.contains(q) {
            let p = choose|p: Position| cells.contains(p) && p.rotated(d) == q;
            lemma_rotation_keeps_ring(p, d);
            lemma_rotate_round_trip(p, d);
        }
    }
    assert(image =~= cells);
    assert forall|p: Position, q: Position|
        #![trigger cells.contains(p), cells.contains(q), p.rotated(d), q.rotated(d)]
        cells.contains(p) && cells.contains(q) && p.rotated(d) == q.rotated(d) implies p == q by {
        lemma_rotate_round_trip(p, d);
        lemma_rotate_round_trip(q, d);
    }
}

impl Position {
    #[verifier::type_invariant]
    pub(crate) open spec fn inv(self) -> bool {
        self.is_valid()
    }

    pub open(crate) spec fn row_spec(self) -> int {
        self.row as int
    }

    pub open(crate) spec fn col_spec(self) -> int {
        self.col as int
    }

    /// The position is a cell of the cross.
    pub open(crate) spec fn is_valid(self) -> bool {
        is_valid_cell(self.row as int, self.col as int)
    }

    pub open(crate) spec fn is_center(self) -> bool {
        in_middle(self.row as int) && in_middle(self.col as int)
    }

    /// The quarter turn of the whole cross about its center.
    pub open(crate) spec fn rotated(self, d: RotationDirection) -> Position {
        match d {
            RotationDirection::Clockwise => Position {
                row: self.col,
                col: (DIMENSION - 1 - self.row) as u8,
            },
            RotationDirection::Anticlockwise => Position {
                row: (DIMENSION - 1 - self.col) as u8,
                col: self.row,
            },
        }
    }

    /// A slide is possible along an axis that sits in the middle band.
    pub open(crate) spec fn can_slide(self, d: SlideDirection) -> bool {
        match d {
            SlideDirection::Left | SlideDirection::Right => in_middle(self.row as int),
            SlideDirection::Up | SlideDirection::Down => in_middle(self.col as int),
        }
    }

    /// The shift by one region width, wrapping around the board's edge.
    pub open(crate) spec fn slid(self, d: SlideDirection) -> Position {
        match d {
            SlideDirection::Left => Position {
                row: self.row,
                col: ((DIMENSION + self.col - SQUARE_SIZE) % DIMENSION as int) as u8,
            },
            SlideDirection::Right => Position {
                row: self.row,
                col: ((self.col + SQUARE_SIZE) % DIMENSION as int) as u8,
            },
            SlideDirection::Up => Position {
                row: ((DIMENSION + self.row - SQUARE_SIZE) % DIMENSION as int) as u8,
                col: self.col,
            },
            SlideDirection::Down => Position {
                row: ((self.row + SQUARE_SIZE) % DIMENSION as int) as u8,
                col: self.col,
            },
        }
    }

    /// The region that holds the position.
    pub open(crate) spec fn square_spec(self) -> Square {
        if self.row < SQUARE_SIZE {
            Square::North
        } else if self.row >= 2 * SQUARE_SIZE {
            Square::South
        } else if self.col < SQUARE_SIZE {
            Square::West
        } else if self.col >= 2 * SQUARE_SIZE {
            Square::East
        } else {
            Square::Center
        }
    }

    /// The distance coordinate of an outer position: the one outside the middle band.
    pub open(crate) spec fn distance_coordinate(self) -> int {
        if in_middle(self.col as int) {
            self.row as int
        } else {
            self.col as int
        }
    }

    /// The ring of an outer position (0 next to the center, 2 at the edge),
    /// none for the center region.
    pub open(crate) spec fn ring_spec(self) -> Option<u8> {
        if self.is_center() {
            None
        } else if self.distance_coordinate() < DIMENSION / 2 {
            Some((SQUARE_SIZE - self.distance_coordinate() - 1) as u8)
        } else {
            Some((self.distance_coordinate() - 2 * SQUARE_SIZE) as u8)
        }
    }

    /// What a manipulation does to the position, when it succeeds.
    pub open(crate) spec fn manipulated(self, m: Manipulation) -> Position {
        match m {
            Manipulation::RotateClockwise => self.rotated(RotationDirection::Clockwise),
            Manipulation::RotateAnticlockwise => self.rotated(RotationDirection::Anticlockwise),
            Manipulation::SlideLeft => self.slid(SlideDirection::Left),
            Manipulation::SlideRight => self.slid(SlideDirection::Right),
            Manipulation::SlideUp => self.slid(SlideDirection::Up),
            Manipulation::SlideDown => self.slid(SlideDirection::Down),
        }
    }

    /// The error a manipulation meets at the position, if any.
    pub open(crate) spec fn manipulation_error(self, m: Manipulation) -> Option<PieceError> {
        match m {
            Manipulation::RotateClockwise | Manipulation::RotateAnticlockwise => {
                if self.is_center() {
                    Some(PieceError::CantRotate)
                } else {
                    None
                }
            },
            Manipulation::SlideLeft => if self.can_slide(SlideDirection::Left) {
                None
            } else {
                Some(PieceError::CantSlide)
            },
            Manipulation::SlideRight => if self.can_slide(SlideDirection::Right) {
                None
            } else {
                Some(PieceError::CantSlide)
            },
            Manipulation::SlideUp => if self.can_slide(SlideDirection::Up) {
                None
            } else {
                Some(PieceError::CantSlide)
            },
            Manipulation::SlideDown => if self.can_slide(SlideDirection::Down) {
                None
            } else {
                Some(PieceError::CantSlide)
            },
        }
    }

    /// Builds the position `(row, col)`, which must be a cell of the cross.
    pub fn new(row: u8, col: u8) -> (r: Result<Self, PieceError>)
        ensures
            is_valid_cell(row as int, col as int) <==> r.is_ok(),
            r matches Ok(p) ==> p.row_spec() == row && p.col_spec() == col,
            r matches Err(e) ==> e == PieceError::InvalidRowCol,
    {
        let row_in_middle = row >= SQUARE_SIZE && row < 2 * SQUARE_SIZE;
        let col_in_middle = col >= SQUARE_SIZE && col < 2 * SQUARE_SIZE;
        if row < DIMENSION && col < DIMENSION && (row_in_middle || col_in_middle) {
            Ok(Position { row, col })
        } else {
            Err(PieceError::InvalidRowCol)
        }
    }

    pub fn row(&self) -> (r: u8)
        ensures
            r == self.row_spec(),
    {
        self.row
    }

    pub fn col(&self) -> (r: u8)
        ensures
            r == self.col_spec(),
    {
        self.col
    }

    pub fn is_row_in_middle(&self) -> (r: bool)
        ensures
            r == in_middle(self.row_spec()),
    {
        self.row >= SQUARE_SIZE && self.row < 2 * SQUARE_SIZE
    }

    pub fn is_col_in_middle(&self) -> (r: bool)
        ensures
            r == in_middle(self.col_spec()),
    {
        self.col >= SQUARE_SIZE && self.col < 2 * SQUARE_SIZE
    }

    /// The region that holds the position.
    pub fn square(&self) -> (r: Square)
        ensures
            r == self.square_spec(),
    {
        if self.row < SQUARE_SIZE {
            Square::North
        } else if self.row >= 2 * SQUARE_SIZE {
            Square::South
        } else if self.col < SQUARE_SIZE {
            Square::West
        } else if self.col >= 2 * SQUARE_SIZE {
            Square::East
        } else {
            Square::Center
        }
    }

    /// The ring of an outer position, `None` in the center region.
    pub fn ring(&self) -> (r: Option<u8>)
        ensures
            r == self.ring_spec(),
            r matches Some(k) ==> k < 3,
    {
        proof {
            use_type_invariant(self);
        }
        if self.is_col_in_middle() && self.is_row_in_middle() {
            return None;
        }
        let distance_coordinate = if self.is_col_in_middle() {
            self.row
        } else {
            self.col
        };
        let center = DIMENSION / 2;
        if distance_coordinate < center {
            Some(SQUARE_SIZE - distance_coordinate - 1)
        } else {
            Some(distance_coordinate - 2 * SQUARE_SIZE)
        }
    }

    /// Turns the position a quarter about the center of the cross; the center
    /// region cannot turn.
    pub fn rotate(&mut self, direction: RotationDirection) -> (r: Result<(), PieceError>)
        ensures
            old(self).is_center() <==> r.is_err(),
            r matches Err(e) ==> e == PieceError::CantRotate && *final(self) == *old(self),
            r.is_ok() ==> *final(self) == old(self).rotated(direction),
    {
        proof {
            use_type_invariant(&*self);
        }
        if self.is_row_in_middle() && self.is_col_in_middle() {
            return Err(PieceError::CantRotate);
        }
        let (new_row, new_col) = match direction {
            RotationDirection::Clockwise => (self.col, DIMENSION - 1 - self.row),
            RotationDirection::Anticlockwise => (DIMENSION - 1 - self.col, self.row),
        };
        *self = Position { row: new_row, col: new_col };
        Ok(())
    }

    /// Shifts the position by one region width along a middle-band row or
    /// column, wrapping around the edge of the board.
    pub fn slide(&mut self, direction: SlideDirection) -> (r: Result<(), PieceError>)
        ensures
            old(self).can_slide(direction) <==> r.is_ok(),
            r matches Err(e) ==> e == PieceError::CantSlide && *final(self) == *old(self),
            r.is_ok() ==> *final(self) == old(self).slid(direction),
    {
        proof {
            use_type_invariant(&*self);
        }
        match direction {
            SlideDirection::Left | SlideDirection::Right => {
                if !self.is_row_in_middle() {
                    return Err(PieceError::CantSlide);
                }
            },
            SlideDirection::Up | SlideDirection::Down => {
                if !self.is_col_in_middle() {
                    return Err(PieceError::CantSlide);
                }
            },
        }
        let (row, col) = (self.row, self.col);
        *self = match direction {
            SlideDirection::Left => Position { row, col: (DIMENSION + col - SQUARE_SIZE) % DIMENSION },
            SlideDirection::Right => Position { row, col: (col + SQUARE_SIZE) % DIMENSION },
            SlideDirection::Up => Position { row: (DIMENSION + row - SQUARE_SIZE) % DIMENSION, col },
            SlideDirection::Down => Position { row: (row + SQUARE_SIZE) % DIMENSION, col },
        };
        Ok(())
    }

    /// Applies one single-position move.
    pub fn apply_manipulation(&mut self, manipulation: Manipulation) -> (r: Result<(), PieceError>)
        ensures
            r matches Err(e) ==> old(self).manipulation_error(manipulation) == Some(e)
                && *final(self) == *old(self),
            r.is_ok() ==> old(self).manipulation_error(manipulation).is_none()
                && *final(self) == old(self).manipulated(manipulation),
    {
        match manipulation {
            Manipulation::RotateClockwise => self.rotate(RotationDirection::Clockwise),
            Manipulation::RotateAnticlockwise => self.rotate(RotationDirection::Anticlockwise),
            Manipulation::SlideLeft => self.slide(SlideDirection::Left),
            Manipulation::SlideRight => self.slide(SlideDirection::Right),
            Manipulation::SlideUp => self.slide(SlideDirection::Up),
            Manipulation::SlideDown => self.slide(SlideDirection::Down),
        }
    }
}

} // verus!
