use vstd::prelude::*;

use crate::position::{
    Manipulation, Position, RotationDirection, SlideDirection, Square, DIMENSION, SQUARE_SIZE,
};

verus! {

/// A point of the board in cell units. It may lie off the board: the
/// continuation of a slide that wraps around the edge.
#[derive(PartialEq, Eq, Structural, Copy, Clone, Debug)]
pub struct GridPoint {
    pub row: i32,
    pub col: i32,
}

/// The shape of a motion, in cell units.
#[derive(PartialEq, Eq, Structural, Copy, Clone, Debug)]
pub enum Curve {
    /// A straight segment.
    Linear { from: GridPoint, to: GridPoint },
    /// A straight lead-in to `arc_from`, a quadratic arc through
    /// `arc_through` to `arc_to`, and a straight lead-out.
    Arc {
        from: GridPoint,
        arc_from: GridPoint,
        arc_through: GridPoint,
        arc_to: GridPoint,
        to: GridPoint,
    },
}

/// The motion of a piece for one move, with a second curve for the copy that
/// is drawn while a slide crosses the edge of the board.
#[derive(PartialEq, Eq, Structural, Copy, Clone, Debug)]
pub struct Path {
    pub main_path: Curve,
    pub ghost_path: Option<Curve>,
}

/// Marker identifier for the segments of a path.
#[derive(PartialEq, Eq, Structural, Copy, Clone, Debug, Hash)]
pub struct EmptyId;

impl EmptyId {
    pub fn new() -> (r: Self)
        ensures
            r == EmptyId,
    {
        EmptyId
    }
}

/// One entry of the path table.
#[derive(Copy, Clone, Debug)]
pub struct PathEntry {
    pub from: Position,
    pub to: Position,
    pub path: Path,
}

/// The precomputed motion of every move of a single position.
pub struct PathMap {
    entries: Vec<PathEntry>,
}

pub open spec fn grid_point(row: int, col: int) -> GridPoint {
    GridPoint { row: row as i32, col: col as i32 }
}

/// The point at the center of a cell.
pub open(crate) spec fn cell_point(p: Position) -> GridPoint {
    grid_point(p.row_spec(), p.col_spec())
}

impl Curve {
    /// Where the curve ends.
    pub open spec fn end_point(self) -> GridPoint {
        match self {
            Curve::Linear { to, .. } => to,
            Curve::Arc { to, .. } => to,
        }
    }

    /// Where the curve starts.
    pub open spec fn start_point(self) -> GridPoint {
        match self {
            Curve::Linear { from, .. } => from,
            Curve::Arc { from, .. } => from,
        }
    }
}

/// The offset of a slide, as (rows, columns).
pub open spec fn slide_offset(d: SlideDirection) -> (int, int) {
    match d {
        SlideDirection::Left => (0, -(SQUARE_SIZE as int)),
        SlideDirection::Right => (0, SQUARE_SIZE as int),
        SlideDirection::Up => (-(SQUARE_SIZE as int), 0),
        SlideDirection::Down => (SQUARE_SIZE as int, 0),
    }
}

/// The shift that brings a coordinate past the edge back onto the board.
pub open spec fn wrap_shift(c: int) -> int {
    if c >= DIMENSION {
        -(DIMENSION as int)
    } else if c < 0 {
        DIMENSION as int
    } else {
        0
    }
}

/// The motion of a slide: a straight segment to the unwrapped target. Where
/// that target lies past the edge, the main segment is shifted by the board's
/// width so that it ends on the board, and the unshifted segment is the ghost.
pub open(crate) spec fn slide_path(p: Position, d: SlideDirection) -> Path {
    let (dr, dc) = slide_offset(d);
    let to_row = p.row_spec() + dr;
    let to_col = p.col_spec() + dc;
    let shift_row = wrap_shift(to_row);
    let shift_col = wrap_shift(to_col);
    let straight = Curve::Linear { from: cell_point(p), to: grid_point(to_row, to_col) };
    if shift_row == 0 && shift_col == 0 {
        Path { main_path: straight, ghost_path: None }
    } else {
        Path {
            main_path: Curve::Linear {
                from: grid_point(p.row_spec() + shift_row, p.col_spec() + shift_col),
                to: grid_point(to_row + shift_row, to_col + shift_col),
            },
            ghost_path: Some(straight),
        }
    }
}

/// The three waypoints of the arc of a rotation, by region and direction.
pub open(crate) spec fn arc_waypoints(p: Position, d: RotationDirection) -> (GridPoint, GridPoint, GridPoint) {
    let r = p.row_spec();
    let c = p.col_spec();
    let far = DIMENSION - 1;
    match (p.square_spec(), d) {
        (Square::North, RotationDirection::Clockwise) =>
            (grid_point(r, 5), grid_point(r, far - r), grid_point(3, far - r)),
        (Square::North, RotationDirection::Anticlockwise) =>
            (grid_point(r, 3), grid_point(r, r), grid_point(3, r)),
        (Square::South, RotationDirection::Clockwise) =>
            (grid_point(r, 3), grid_point(r, far - r), grid_point(5, far - r)),
        (Square::South, RotationDirection::Anticlockwise) =>
            (grid_point(r, 5), grid_point(r, r), grid_point(5, r)),
        (Square::West, RotationDirection::Clockwise) =>
            (grid_point(3, c), grid_point(c, c), grid_point(c, 3)),
        (Square::West, RotationDirection::Anticlockwise) =>
            (grid_point(5, c), grid_point(far - c, c), grid_point(far - c, 3)),
        (Square::East, RotationDirection::Clockwise) =>
            (grid_point(6, c), grid_point(c, c), grid_point(c, 5)),
        (Square::East, RotationDirection::Anticlockwise) =>
            (grid_point(3, c), grid_point(far - c, c), grid_point(far - c, 5)),
        (Square::Center, _) => (cell_point(p), cell_point(p), cell_point(p)),
    }
}

/// The motion of a rotation: lead-in, arc and lead-out from the cell to its
/// turned cell.
pub open(crate) spec fn rotation_path(p: Position, d: RotationDirection) -> Path {
    let (arc_from, arc_through, arc_to) = arc_waypoints(p, d);
    Path {
        main_path: Curve::Arc {
            from: cell_point(p),
            arc_from,
            arc_through,
            arc_to,
            to: cell_point(p.rotated(d)),
        },
        ghost_path: None,
    }
}

/// The motion of a move of a single position.
pub open(crate) spec fn move_path(p: Position, m: Manipulation) -> Path {
    match m {
        Manipulation::RotateClockwise => rotation_path(p, RotationDirection::Clockwise),
        Manipulation::RotateAnticlockwise => rotation_path(p, RotationDirection::Anticlockwise),
        Manipulation::SlideLeft => slide_path(p, SlideDirection::Left),
        Manipulation::SlideRight => slide_path(p, SlideDirection::Right),
        Manipulation::SlideUp => slide_path(p, SlideDirection::Up),
        Manipulation::SlideDown => slide_path(p, SlideDirection::Down),
    }
}

/// The move `m` can be made at `p`.
pub open(crate) spec fn is_legal_move(p: Position, m: Manipulation) -> bool {
    p.manipulation_error(m).is_none()
}

/// `to` is reached from the cell `from` by one legal move.
pub open(crate) spec fn is_move_pair(from: Position, to: Position) -> bool {
    &&& from.is_valid()
    &&& exists|m: Manipulation| is_legal_move(from, m) && #[trigger] from.manipulated(m) == to
}

/// The motion from `from` to `to`, for a pair that one move connects.
pub open(crate) spec fn path_between(from: Position, to: Position) -> Path {
    if is_legal_move(from, Manipulation::SlideLeft) && to == from.manipulated(Manipulation::SlideLeft) {
        move_path(from, Manipulation::SlideLeft)
    } else if is_legal_move(from, Manipulation::SlideRight) && to == from.manipulated(Manipulation::SlideRight) {
        move_path(from, Manipulation::SlideRight)
    } else if is_legal_move(from, Manipulation::SlideUp) && to == from.manipulated(Manipulation::SlideUp) {
        move_path(from, Manipulation::SlideUp)
    } else if is_legal_move(from, Manipulation::SlideDown) && to == from.manipulated(Manipulation::SlideDown) {
        move_path(from, Manipulation::SlideDown)
    } else if to == from.manipulated(Manipulation::RotateClockwise) {
        move_path(from, Manipulation::RotateClockwise)
    } else {
        move_path(from, Manipulation::RotateAnticlockwise)
    }
}

/// No two moves of a cell lead to the same cell, so the pair of cells names
/// the move and its motion.
pub proof fn lemma_move_determined(p: Position, m: Manipulation)
    requires
        p.is_valid(),
        is_legal_move(p, m),
    ensures
        is_move_pair(p, p.manipulated(m)),
        path_between(p, p.manipulated(m)) == move_path(p, m),
{
}

/// The main curve of every motion in the table ends at the cell of the
/// destination: a piece at rest after a move is drawn at its new cell.
pub proof fn lemma_path_ends_at_destination(from: Position, to: Position)
    requires
        is_move_pair(from, to),
    ensures
        path_between(from, to).main_path.end_point() == cell_point(to),
{
    let m = choose|m: Manipulation| is_legal_move(from, m) && #[trigger] from.manipulated(m) == to;
    lemma_move_determined(from, m);
    match m {
        Manipulation::RotateClockwise => {},
        Manipulation::RotateAnticlockwise => {},
        Manipulation::SlideLeft => {},
        Manipulation::SlideRight => {},
        Manipulation::SlideUp => {},
        Manipulation::SlideDown => {},
    }
}

impl GridPoint {
    /// The center of the cell of a position.
    pub fn of(p: &Position) -> (r: GridPoint)
        ensures
            r == cell_point(*p),
    {
        GridPoint { row: p.row() as i32, col: p.col() as i32 }
    }
}

/// The motion of a slide of `p`.
fn slide_path_of(p: &Position, d: SlideDirection) -> (r: Path)
    requires
        p.is_valid(),
    ensures
        r == slide_path(*p, d),
{
    let (dr, dc): (i32, i32) = match d {
        SlideDirection::Left => (0, -3),
        SlideDirection::Right => (0, 3),
        SlideDirection::Up => (-3, 0),
        SlideDirection::Down => (3, 0),
    };
    let to_row = p.row() as i32 + dr;
    let to_col = p.col() as i32 + dc;
    let shift_row: i32 = if to_row >= 9 {
        -9
    } else if to_row < 0 {
        9
    } else {
        0
    };
    let shift_col: i32 = if to_col >= 9 {
        -9
    } else if to_col < 0 {
        9
    } else {
        0
    };
    let straight = Curve::Linear { from: GridPoint::of(p), to: GridPoint { row: to_row, col: to_col } };
    if shift_row == 0 && shift_col == 0 {
        Path { main_path: straight, ghost_path: None }
    } else {
        Path {
            main_path: Curve::Linear {
                from: GridPoint { row: p.row() as i32 + shift_row, col: p.col() as i32 + shift_col },
                to: GridPoint { row: to_row + shift_row, col: to_col + shift_col },
            },
            ghost_path: Some(straight),
        }
    }
}

/// The arc waypoints of a rotation of `p`.
fn arc_waypoints_of(p: &Position, d: RotationDirection) -> (r: (GridPoint, GridPoint, GridPoint))
    requires
        p.is_valid(),
    ensures
        r == arc_waypoints(*p, d),
{
    let r = p.row() as i32;
    let c = p.col() as i32;
    let gp = |row: i32, col: i32| -> (g: GridPoint)
        ensures
            g == grid_point(row as int, col as int),
        { GridPoint { row, col } };
    match (p.square(), d) {
        (Square::North, RotationDirection::Clockwise) => (gp(r, 5), gp(r, 8 - r), gp(3, 8 - r)),
        (Square::North, RotationDirection::Anticlockwise) => (gp(r, 3), gp(r, r), gp(3, r)),
        (Square::South, RotationDirection::Clockwise) => (gp(r, 3), gp(r, 8 - r), gp(5, 8 - r)),
        (Square::South, RotationDirection::Anticlockwise) => (gp(r, 5), gp(r, r), gp(5, r)),
        (Square::West, RotationDirection::Clockwise) => (gp(3, c), gp(c, c), gp(c, 3)),
        (Square::West, RotationDirection::Anticlockwise) => (gp(5, c), gp(8 - c, c), gp(8 - c, 3)),
        (Square::East, RotationDirection::Clockwise) => (gp(6, c), gp(c, c), gp(c, 5)),
        (Square::East, RotationDirection::Anticlockwise) => (gp(3, c), gp(8 - c, c), gp(8 - c, 5)),
        (Square::Center, _) => (gp(r, c), gp(r, c), gp(r, c)),
    }
}

/// The motion of a rotation of `p`.
fn rotation_path_of(p: &Position, d: RotationDirection) -> (r: Path)
    requires
        p.is_valid(),
        !p.is_center(),
    ensures
        r == rotation_path(*p, d),
{
    let (arc_from, arc_through, arc_to) = arc_waypoints_of(p, d);
    let mut turned = *p;
    let _ = turned.rotate(d);
    Path {
        main_path: Curve::Arc {
            from: GridPoint::of(p),
            arc_from,
            arc_through,
            arc_to,
            to: GridPoint::of(&turned),
        },
        ghost_path: None,
    }
}

/// The motion of the move `m` of `p`.
fn move_path_of(p: &Position, m: Manipulation) -> (r: Path)
    requires
        p.is_valid(),
        is_legal_move(*p, m),
    ensures
        r == move_path(*p, m),
{
    match m {
        Manipulation::RotateClockwise => rotation_path_of(p, RotationDirection::Clockwise),
        Manipulation::RotateAnticlockwise => rotation_path_of(p, RotationDirection::Anticlockwise),
        Manipulation::SlideLeft => slide_path_of(p, SlideDirection::Left),
        Manipulation::SlideRight => slide_path_of(p, SlideDirection::Right),
        Manipulation::SlideUp => slide_path_of(p, SlideDirection::Up),
        Manipulation::SlideDown => slide_path_of(p, SlideDirection::Down),
    }
}

/// Every entry holds the motion between its two cells, which one move connects.
pub open(crate) spec fn entries_valid(entries: Seq<PathEntry>) -> bool {
    forall|i: int|
        0 <= i < entries.len() ==> {
            let e = #[trigger] entries[i];
            is_move_pair(e.from, e.to) && e.path == path_between(e.from, e.to)
        }
}

/// Some entry runs from `from` to `to`.
pub open(crate) spec fn entries_hold(entries: Seq<PathEntry>, from: Position, to: Position) -> bool {
    exists|i: int| 0 <= i < entries.len() && (#[trigger] entries[i]).from == from && entries[i].to == to
}

/// Adds the motion from `from` to `to`.
fn push_entry(entries: &mut Vec<PathEntry>, from: Position, to: Position, path: Path)
    requires
        entries_valid(old(entries)@),
        is_move_pair(from, to),
        path == path_between(from, to),
    ensures
        entries_valid(final(entries)@),
        forall|f: Position, t: Position|
            #[trigger] entries_hold(final(entries)@, f, t) <==> entries_hold(old(entries)@, f, t) || (
            f == from && t == to),
{
    let ghost before = entries@;
    entries.push(PathEntry { from, to, path });
    assert forall|f: Position, t: Position|
        #[trigger] entries_hold(entries@, f, t) <==> entries_hold(before, f, t) || (f == from && t == to) by {
        if entries_hold(before, f, t) {
            let i = choose|i: int| 0 <= i < before.len() && (#[trigger] before[i]).from == f && before[i].to == t;
            assert(entries@[i] == before[i]);
        }
        if f == from && t == to {
            assert(entries@[before.len() as int].from == f);
        }
        if entries_hold(entries@, f, t) {
            let i = choose|i: int|
                0 <= i < entries@.len() && (#[trigger] entries@[i]).from == f && entries@[i].to == t;
            if i < before.len() {
                assert(before[i] == entries@[i]);
            }
        }
    }
}

/// Adds the motion of the move `m` of `p`, if the move is legal there.
fn add_move(entries: &mut Vec<PathEntry>, p: Position, m: Manipulation)
    requires
        entries_valid(old(entries)@),
        p.is_valid(),
    ensures
        entries_valid(final(entries)@),
        forall|f: Position, t: Position|
            #[trigger] entries_hold(final(entries)@, f, t) <==> entries_hold(old(entries)@, f, t) || (
            f == p && is_legal_move(p, m) && t == p.manipulated(m)),
{
    let mut to = p;
    if to.apply_manipulation(m).is_ok() {
        proof {
            lemma_move_determined(p, m);
        }
        let path = move_path_of(&p, m);
        push_entry(entries, p, to, path);
    }
}

/// Adds the motion of every legal move of `p`.
fn add_moves_from(entries: &mut Vec<PathEntry>, p: Position)
    requires
        entries_valid(old(entries)@),
    ensures
        entries_valid(final(entries)@),
        forall|f: Position, t: Position|
            #[trigger] entries_hold(final(entries)@, f, t) <==> entries_hold(old(entries)@, f, t) || (
            f == p && is_move_pair(p, t)),
{
    proof {
        use_type_invariant(&p);
    }
    let ghost before = entries@;
    add_move(entries, p, Manipulation::RotateClockwise);
    add_move(entries, p, Manipulation::RotateAnticlockwise);
    add_move(entries, p, Manipulation::SlideLeft);
    add_move(entries, p, Manipulation::SlideRight);
    add_move(entries, p, Manipulation::SlideUp);
    add_move(entries, p, Manipulation::SlideDown);
    assert forall|f: Position, t: Position|
        #[trigger] entries_hold(entries@, f, t) <==> entries_hold(before, f, t) || (f == p
            && is_move_pair(p, t)) by {
        if f == p && is_move_pair(p, t) {
            let m = choose|m: Manipulation| is_legal_move(p, m) && #[trigger] p.manipulated(m) == t;
            match m {
                Manipulation::RotateClockwise => {},
                Manipulation::RotateAnticlockwise => {},
                Manipulation::SlideLeft => {},
                Manipulation::SlideRight => {},
                Manipulation::SlideUp => {},
                Manipulation::SlideDown => {},
            }
        }
        if entries_hold(entries@, f, t) && !entries_hold(before, f, t) {
            if is_legal_move(p, Manipulation::RotateClockwise) && t == p.manipulated(Manipulation::RotateClockwise) {
                assert(is_move_pair(p, t));
            } else if is_legal_move(p, Manipulation::RotateAnticlockwise) && t == p.manipulated(Manipulation::RotateAnticlockwise) {
                assert(is_move_pair(p, t));
            } else if is_legal_move(p, Manipulation::SlideLeft) && t == p.manipulated(Manipulation::SlideLeft) {
                assert(is_move_pair(p, t));
            } else if is_legal_move(p, Manipulation::SlideRight) && t == p.manipulated(Manipulation::SlideRight) {
                assert(is_move_pair(p, t));
            } else if is_legal_move(p, Manipulation::SlideUp) && t == p.manipulated(Manipulation::SlideUp) {
                assert(is_move_pair(p, t));
            } else {
                assert(is_move_pair(p, t));
            }
        }
    }
}

/// Builds the table of motions: one entry for every pair of cells that one
/// legal move connects, and no other.
pub fn initialize_paths() -> (r: PathMap)
    ensures
        forall|from: Position, to: Position| #[trigger] r.contains(from, to) <==> is_move_pair(from, to),
{
    let mut entries: Vec<PathEntry> = Vec::new();
    let mut row: u8 = 0;
    while row < DIMENSION
        invariant
            0 <= row <= DIMENSION,
            entries_valid(entries@),
            forall|f: Position, t: Position|
                #[trigger] entries_hold(entries@, f, t) <==> is_move_pair(f, t) && f.row_spec() < row,
        decreases DIMENSION - row,
    {
        let mut col: u8 = 0;
        while col < DIMENSION
            invariant
                0 <= row < DIMENSION,
                0 <= col <= DIMENSION,
                entries_valid(entries@),
                forall|f: Position, t: Position|
                    #[trigger] entries_hold(entries@, f, t) <==> is_move_pair(f, t) && (f.row_spec()
                        < row || (f.row_spec() == row && f.col_spec() < col)),
            decreases DIMENSION - col,
        {
            let ghost before = entries@;
            match Position::new(row, col) {
                Ok(p) => {
                    add_moves_from(&mut entries, p);
                },
                Err(_) => {},
            }
            assert forall|f: Position, t: Position|
                #[trigger] entries_hold(entries@, f, t) <==> is_move_pair(f, t) && (f.row_spec()
                    < row || (f.row_spec() == row && f.col_spec() <= col)) by {
                if f.row_spec() == row && f.col_spec() == col && is_move_pair(f, t) {
                    assert(f.is_valid());
                }
            }
            col += 1;
        }
        row += 1;
    }
    PathMap { entries }
}

impl PathMap {
    #[verifier::type_invariant]
    spec fn inv(self) -> bool {
        entries_valid(self.entries@)
    }

    /// The table holds a motion from `from` to `to`.
    pub closed spec fn contains(self, from: Position, to: Position) -> bool {
        entries_hold(self.entries@, from, to)
    }

    /// The motion the table holds from `from` to `to`, if any.
    pub open spec fn lookup(self, from: Position, to: Position) -> Option<Path> {
        if self.contains(from, to) {
            Some(path_between(from, to))
        } else {
            None
        }
    }

    /// An empty table.
    pub fn new() -> (r: Self)
        ensures
            forall|from: Position, to: Position| !r.contains(from, to),
    {
        PathMap { entries: Vec::new() }
    }

    /// The motion from `from` to `to`, if the table holds one.
    pub fn get(&self, from: &Position, to: &Position) -> (r: Option<Path>)
        ensures
            r == self.lookup(*from, *to),
            r matches Some(path) ==> path.main_path.end_point() == cell_point(*to),
    {
        proof {
            use_type_invariant(self);
        }
        let mut i: usize = 0;
        while i < self.entries.len()
            invariant
                0 <= i <= self.entries@.len(),
                entries_valid(self.entries@),
                forall|j: int|
                    0 <= j < i ==> !((#[trigger] self.entries@[j]).from == *from
                        && self.entries@[j].to == *to),
            decreases self.entries@.len() - i,
        {
            let e = &self.entries[i];
            if e.from == *from && e.to == *to {
                proof {
                    assert(self.entries@[i as int] == *e);
                    assert(entries_hold(self.entries@, *from, *to));
                    lemma_path_ends_at_destination(*from, *to);
                }
                return Some(e.path);
            }
            i += 1;
        }
        None
    }
}

} // verus!
