use rubicross::position::RotationDirection::{Anticlockwise, Clockwise};
use rubicross::position::SlideDirection::{Down, Left, Right, Up};
use rubicross::position::{
    Manipulation, PieceError, Position, RotationDirection, SlideDirection, Square,
};

#[test]
fn piece_logic_rotate_fails_for_center_square() {
    let position = Position::new(4, 4);
    let ret = position.unwrap().rotate(RotationDirection::Clockwise);

    assert!(matches!(ret.err().unwrap(), PieceError::CantRotate));
}

#[test]
fn position_rotate_fails_for_center_square() {
    let position = Position::new(4, 4);
    let ret = position.unwrap().rotate(RotationDirection::Clockwise);

    assert!(matches!(ret.err().unwrap(), PieceError::CantRotate));
}

#[test]
fn new_returns_expected_value() {
    let cases: [(u8, u8, bool); 13] = [
        (0, 0, false),
        (8, 8, false),
        (8, 0, false),
        (0, 8, false),
        (0, 2, false),
        (6, 2, false),
        (7, 8, false),
        (2, 8, false),
        (0, 3, true),
        (3, 0, true),
        (4, 3, true),
        (5, 8, true),
        (3, 3, true),
    ];
    for (row, col, expected) in cases {
        let position = Position::new(row, col);
        assert_eq!(position.is_ok(), expected, "({}, {})", row, col);
    }
}

#[test]
fn new_accepts_exactly_the_cross() {
    for row in 0..12u8 {
        for col in 0..12u8 {
            let in_grid = row < 9 && col < 9;
            let in_band = (3..6).contains(&row) || (3..6).contains(&col);
            let result = Position::new(row, col);
            assert_eq!(result.is_ok(), in_grid && in_band, "({}, {})", row, col);
            if let Ok(p) = result {
                assert_eq!((p.row(), p.col()), (row, col));
            } else {
                assert!(matches!(result, Err(PieceError::InvalidRowCol)));
            }
        }
    }
}

#[test]
fn rotate_returns_expected_value() {
    let cases = [
        (0, 3, Clockwise, 3, 8),
        (1, 4, Clockwise, 4, 7),
        (2, 5, Clockwise, 5, 6),
        (5, 8, Clockwise, 8, 3),
        (4, 7, Clockwise, 7, 4),
        (3, 6, Clockwise, 6, 5),
        (8, 3, Clockwise, 3, 0),
        (7, 4, Clockwise, 4, 1),
        (6, 5, Clockwise, 5, 2),
        (3, 0, Clockwise, 0, 5),
        (4, 1, Clockwise, 1, 4),
        (5, 2, Clockwise, 2, 3),
        (3, 8, Anticlockwise, 0, 3),
        (4, 7, Anticlockwise, 1, 4),
        (5, 6, Anticlockwise, 2, 5),
        (8, 3, Anticlockwise, 5, 8),
        (7, 4, Anticlockwise, 4, 7),
        (6, 5, Anticlockwise, 3, 6),
        (3, 0, Anticlockwise, 8, 3),
        (4, 1, Anticlockwise, 7, 4),
        (5, 2, Anticlockwise, 6, 5),
        (0, 5, Anticlockwise, 3, 0),
        (1, 4, Anticlockwise, 4, 1),
        (2, 3, Anticlockwise, 5, 2),
    ];
    for (row, col, direction, expected_row, expected_col) in cases {
        let mut position = Position::new(row, col).unwrap();
        position.rotate(direction).unwrap();
        assert_eq!((position.row(), position.col()), (expected_row, expected_col));
    }
}

#[test]
fn sliding_in_invalid_direction_fails() {
    let cases = [
        (3, 0, Up),
        (4, 1, Down),
        (3, 6, Up),
        (4, 7, Down),
        (0, 3, Left),
        (1, 4, Right),
        (6, 3, Left),
        (7, 4, Right),
    ];
    for (row, col, direction) in cases {
        let mut position = Position::new(row, col).unwrap();
        let result = position.slide(direction);
        assert!(matches!(result, Err(PieceError::CantSlide)));
        assert_eq!((position.row(), position.col()), (row, col));
    }
}

#[test]
fn sliding_in_valid_direction_returns_expected_result() {
    let cases = [
        (1, 4, Down, 4, 4),
        (1, 4, Up, 7, 4),
        (4, 7, Left, 4, 4),
        (4, 7, Right, 4, 1),
        (7, 4, Down, 1, 4),
        (7, 4, Up, 4, 4),
        (4, 1, Left, 4, 7),
        (4, 1, Right, 4, 4),
    ];
    for (row, col, direction, expected_row, expected_col) in cases {
        let mut position = Position::new(row, col).unwrap();
        position.slide(direction).unwrap();
        assert_eq!((position.row(), position.col()), (expected_row, expected_col));
    }
}

#[test]
fn ring_returns_the_expected_value() {
    let cases = [
        (3, 2, Some(0)),
        (5, 0, Some(2)),
        (2, 3, Some(0)),
        (1, 4, Some(1)),
        (0, 5, Some(2)),
        (4, 0, Some(2)),
        (4, 1, Some(1)),
        (4, 2, Some(0)),
        (4, 3, None),
        (4, 4, None),
        (4, 5, None),
        (4, 6, Some(0)),
        (4, 7, Some(1)),
        (4, 8, Some(2)),
    ];
    for (row, col, expected_ring) in cases {
        let position = Position::new(row, col).unwrap();
        assert_eq!(position.ring(), expected_ring);
    }
}

#[test]
fn square_returns_the_expected_value() {
    let cases = [
        (1, 4, Square::North),
        (7, 5, Square::South),
        (4, 2, Square::West),
        (3, 7, Square::East),
        (5, 5, Square::Center),
    ];
    for (row, col, expected_square) in cases {
        let position = Position::new(row, col).unwrap();
        assert_eq!(position.square(), expected_square);
    }
}

fn all_positions() -> Vec<Position> {
    let mut out = vec![];
    for row in 0..9 {
        for col in 0..9 {
            if let Ok(p) = Position::new(row, col) {
                out.push(p);
            }
        }
    }
    out
}

#[test]
fn rotation_round_trip_restores_every_outer_position() {
    for p in all_positions() {
        for (there, back) in [
            (RotationDirection::Clockwise, RotationDirection::Anticlockwise),
            (RotationDirection::Anticlockwise, RotationDirection::Clockwise),
        ] {
            let mut q = p;
            if p.ring().is_none() {
                assert!(matches!(q.rotate(there), Err(PieceError::CantRotate)));
                assert_eq!(q, p);
                continue;
            }
            q.rotate(there).unwrap();
            assert_eq!(q.ring(), p.ring());
            assert_ne!(q.square(), p.square());
            q.rotate(back).unwrap();
            assert_eq!(q, p);
        }
    }
}

#[test]
fn slide_round_trip_restores_position() {
    for p in all_positions() {
        for (there, back) in [
            (SlideDirection::Left, SlideDirection::Right),
            (SlideDirection::Right, SlideDirection::Left),
            (SlideDirection::Up, SlideDirection::Down),
            (SlideDirection::Down, SlideDirection::Up),
        ] {
            let mut q = p;
            if q.slide(there).is_ok() {
                q.slide(back).unwrap();
                assert_eq!(q, p);
            }
        }
    }
}

#[test]
fn clockwise_rotation_permutes_each_ring() {
    for k in 0..3u8 {
        let mut before: Vec<(u8, u8)> = all_positions()
            .into_iter()
            .filter(|p| p.ring() == Some(k))
            .map(|p| (p.row(), p.col()))
            .collect();
        let mut after: Vec<(u8, u8)> = all_positions()
            .into_iter()
            .filter(|p| p.ring() == Some(k))
            .map(|mut p| {
                p.apply_manipulation(Manipulation::RotateClockwise).unwrap();
                (p.row(), p.col())
            })
            .collect();
        before.sort();
        after.sort();
        assert_eq!(before.len(), 12);
        assert_eq!(before, after);
    }
}

#[test]
fn apply_manipulation_reports_each_error() {
    let mut center = Position::new(4, 4).unwrap();
    assert!(matches!(
        center.apply_manipulation(Manipulation::RotateAnticlockwise),
        Err(PieceError::CantRotate)
    ));
    let mut north = Position::new(1, 4).unwrap();
    assert!(matches!(
        north.apply_manipulation(Manipulation::SlideLeft),
        Err(PieceError::CantSlide)
    ));
    north.apply_manipulation(Manipulation::SlideDown).unwrap();
    assert_eq!((north.row(), north.col()), (4, 4));
    assert!(!PieceError::InvalidRowCol.message().is_empty());
}

#[test]
fn middle_band_queries() {
    let p = Position::new(4, 7).unwrap();
    assert!(p.is_row_in_middle());
    assert!(!p.is_col_in_middle());
    let c = Position::new(5, 3).unwrap();
    assert!(c.is_row_in_middle() && c.is_col_in_middle());
}

#[test]
fn error_messages() {
    assert_eq!(PieceError::InvalidRowCol.message(), "Invalid combination of row and column");
    assert_eq!(PieceError::CantRotate.message(), "Trying to rotate a piece in the center square");
    assert_eq!(PieceError::CantSlide.message(), "Trying to slide a piece in invalid direction");
}
