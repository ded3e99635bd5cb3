//! The state and move engine of a cross-shaped sliding and rotating puzzle:
//! positions on the cross and their moves, the table of motions that animate
//! them, the pieces and their collection with per-region solved tracking, and
//! the decisions of the buttons and of the shuffle.
use vstd::prelude::*;

pub mod button;
pub mod collection;
pub mod game;
pub mod initialization;
pub mod path;
pub mod piece;
pub mod position;

pub use collection::{Manipulation, PieceCollection};
pub use path::Path;
pub use piece::Piece;
pub use position::{PieceError, Position};

verus! {

/// Which move a control stands for, with its ring, row or column.
#[derive(PartialEq, Eq, Structural, Copy, Clone, Debug)]
pub enum ControlId {
    HorizontalLeft(u8),
    HorizontalRight(u8),
    VerticalUp(u8),
    VerticalDown(u8),
    RotateClockwise(u8),
    RotateAnticlockwise(u8),
}

/// What a control reports.
#[derive(PartialEq, Eq, Structural, Copy, Clone, Debug)]
pub enum ControlEvent {
    Pressed(ControlId),
}

} // verus!
