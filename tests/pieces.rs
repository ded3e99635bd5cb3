use rubicross::collection::{Manipulation, PieceCollection, SquareStatusChanged};
use rubicross::initialization::{initialize_pieces, COLOR_BLUE, COLOR_GREEN, PIECE_COUNT};
use rubicross::path::{initialize_paths, Curve, GridPoint, PathMap};
use rubicross::piece::{ease_in_out_quad, Piece, PROGRESS_SCALE};
use rubicross::position::{Position, Square};

#[test]
fn ease_in_out_quad_exact_values() {
    assert_eq!(ease_in_out_quad(0), 0);
    assert_eq!(ease_in_out_quad(250_000), 125_000);
    assert_eq!(ease_in_out_quad(500_000), 500_000);
    assert_eq!(ease_in_out_quad(750_000), 875_000);
    assert_eq!(ease_in_out_quad(PROGRESS_SCALE), PROGRESS_SCALE);
}

#[test]
fn animation_midpoint_and_end() {
    let table = initialize_paths();
    let from = Position::new(3, 3).unwrap();
    let mut to = from;
    to.slide(rubicross::position::SlideDirection::Left).unwrap();
    let path = table.get(&from, &to).unwrap();

    let mut piece = Piece::new(COLOR_GREEN, from);
    *piece.position_mut() = to;
    piece.start_moving_along(path, 1_000_000, 10_000_000);
    assert!(piece.is_animating());
    assert_eq!(piece.animation().unwrap().progress, 0);

    piece.update(10_500_000);
    assert_eq!(piece.animation().unwrap().progress, 500_000);

    piece.update(11_000_000);
    assert!(!piece.is_animating());
    assert_eq!(*piece.position(), to);
    let end = match path.main_path {
        Curve::Linear { to, .. } => to,
        Curve::Arc { to, .. } => to,
    };
    assert_eq!(end, GridPoint::of(&to));
}

#[test]
fn update_before_the_start_counts_no_time() {
    let table = initialize_paths();
    let from = Position::new(4, 4).unwrap();
    let to = Position::new(4, 7).unwrap();
    let path = table.get(&from, &to).unwrap();
    let mut piece = Piece::new(COLOR_BLUE, to);
    piece.start_moving_along(path, 100, 1_000);
    piece.update(500);
    assert_eq!(piece.animation().unwrap().progress, 0);
    piece.update(1_025);
    assert_eq!(piece.animation().unwrap().progress, 125_000);
}

#[test]
fn pieces_compare_colors() {
    let a = Piece::new(COLOR_GREEN, Position::new(0, 3).unwrap());
    let b = Piece::new(COLOR_GREEN, Position::new(8, 5).unwrap());
    let c = Piece::new(COLOR_BLUE, Position::new(0, 4).unwrap());
    assert!(a.has_same_color_as(&b));
    assert!(!a.has_same_color_as(&c));
    assert_eq!(c.color(), COLOR_BLUE);
}

#[test]
fn fresh_collection_is_solved() {
    let table = initialize_paths();
    let pieces = initialize_pieces(&table);
    assert_eq!(pieces.pieces().len(), PIECE_COUNT);
    assert!(pieces.is_solved());
    assert!(!pieces.is_animating());
    for sq in [Square::North, Square::South, Square::Center, Square::West, Square::East] {
        assert!(pieces.is_square_solved(&sq));
    }
    let first = &pieces.pieces()[0];
    assert_eq!((first.position().row(), first.position().col()), (0, 3));
    assert_eq!(first.color(), COLOR_GREEN);
}

#[test]
fn slide_left_moves_green_piece_and_clears_north() {
    let table = initialize_paths();
    let mut pieces = initialize_pieces(&table);
    pieces.apply_manipulation(Manipulation::SlideLeft(3), 350_000, 0);
    assert!(pieces.is_animating());
    // the green piece that started at (2, 3) is not on row 3 and stays
    let green = &pieces.pieces()[6];
    assert_eq!((green.position().row(), green.position().col()), (2, 3));
    // the yellow piece that started at (3, 3) is now at (3, 0)
    let yellow = &pieces.pieces()[18];
    assert_eq!((yellow.position().row(), yellow.position().col()), (3, 0));
    let path = yellow.animation().unwrap().path;
    assert!(path.ghost_path.is_none());
    // flags wait for the update
    assert!(pieces.is_solved());
    let events = pieces.update(100_000);
    assert_eq!(
        events,
        vec![
            SquareStatusChanged { square: Square::East, solved: false },
            SquareStatusChanged { square: Square::Center, solved: false },
            SquareStatusChanged { square: Square::West, solved: false },
        ]
    );
    assert!(!pieces.is_solved());
    assert!(pieces.is_square_solved(&Square::North));
    // sliding back restores every region
    pieces.apply_manipulation(Manipulation::SlideRight(3), 350_000, 100_000);
    let events = pieces.update(1_000_000);
    assert_eq!(events.len(), 3);
    assert!(events.iter().all(|e| e.solved));
    assert!(pieces.is_solved());
    assert!(!pieces.is_animating());
}

#[test]
fn scrambling_one_piece_clears_only_its_region_until_restored() {
    let table = initialize_paths();
    let mut layout = vec![];
    for row in 0..3 {
        for col in 3..6 {
            layout.push(Piece::new(COLOR_GREEN, Position::new(row, col).unwrap()));
        }
    }
    for row in 3..6 {
        for col in 6..9 {
            layout.push(Piece::new(COLOR_BLUE, Position::new(row, col).unwrap()));
        }
    }
    let mut pieces = PieceCollection::new(&table, layout);
    assert!(pieces.is_square_solved(&Square::North));
    assert!(pieces.is_square_solved(&Square::East));
    // ring 0 turns the green (2, 3..6) into the east region's column 6
    pieces.apply_manipulation(Manipulation::RotateClockwise(0), 10, 0);
    let events = pieces.update(5);
    assert_eq!(events, vec![SquareStatusChanged { square: Square::East, solved: false }]);
    assert!(pieces.is_square_solved(&Square::North));
    pieces.apply_manipulation(Manipulation::RotateAnticlockwise(0), 10, 5);
    let events = pieces.update(100);
    assert_eq!(events, vec![SquareStatusChanged { square: Square::East, solved: true }]);
    let events = pieces.update(200);
    assert!(events.is_empty());
}

#[test]
fn missing_path_snaps_piece_to_its_new_cell() {
    let table = PathMap::new();
    let layout = vec![Piece::new(COLOR_GREEN, Position::new(4, 1).unwrap())];
    let mut pieces = PieceCollection::new(&table, layout);
    pieces.apply_manipulation(Manipulation::SlideRight(4), 1_000, 0);
    let piece = &pieces.pieces()[0];
    assert_eq!((piece.position().row(), piece.position().col()), (4, 4));
    assert!(!piece.is_animating());
}

#[test]
fn rotation_moves_all_twelve_pieces_of_a_ring() {
    let table = initialize_paths();
    let mut pieces = initialize_pieces(&table);
    let before: Vec<Position> = pieces.pieces().iter().map(|p| *p.position()).collect();
    pieces.apply_manipulation(Manipulation::RotateClockwise(1), 10, 0);
    let mut moved = 0;
    for (i, p) in pieces.pieces().iter().enumerate() {
        if before[i].ring() == Some(1) {
            moved += 1;
            assert_ne!(*p.position(), before[i]);
            assert_eq!(p.position().ring(), Some(1));
            assert!(p.is_animating());
        } else {
            assert_eq!(*p.position(), before[i]);
            assert!(!p.is_animating());
        }
    }
    assert_eq!(moved, 12);
    assert!(std::ptr::eq(pieces.path_map(), &table));
}

#[test]
fn empty_collection_counts_as_solved() {
    let table = PathMap::new();
    let mut pieces = PieceCollection::new(&table, vec![]);
    assert!(pieces.is_solved());
    assert!(!pieces.is_animating());
    pieces.apply_manipulation(Manipulation::SlideUp(5), 10, 0);
    assert!(pieces.update(20).is_empty());
}
