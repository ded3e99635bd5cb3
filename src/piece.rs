use vstd::prelude::*;

use crate::path::Path;
use crate::position::Position;

verus! {

/// An opaque tag that tells the colors of pieces apart.
pub type ColorTag = u32;

/// Progress along a path is counted in millionths of the whole path.
pub const PROGRESS_SCALE: u32 = 1_000_000;

/// The quadratic ease-in-out curve on progress in millionths: `2x²` below
/// the midpoint and `1 - 2(1-x)²` from it on, rounded down.
pub open spec fn eased(x: int) -> int {
    let s = PROGRESS_SCALE as int;
    if 2 * x < s {
        2 * x * x / s
    } else {
        s - 2 * (s - x) * (s - x) / s
    }
}

/// The linear progress, in millionths, after `elapsed` of `duration`.
pub open spec fn linear_progress(elapsed: int, duration: int) -> int {
    elapsed * PROGRESS_SCALE / duration
}

/// The time elapsed since `start` at `now`, never below zero.
pub open spec fn elapsed_since(start: u64, now: u64) -> int {
    if now >= start {
        now - start
    } else {
        0
    }
}

/// Eases progress given in millionths of the path.
pub fn ease_in_out_quad(x: u32) -> (r: u32)
    requires
        x <= PROGRESS_SCALE,
    ensures
        r == eased(x as int),
        r <= PROGRESS_SCALE,
{
    let s = PROGRESS_SCALE as u64;
    let x = x as u64;
    if 2 * x < s {
        assert((2 * x * x) as int / (s as int) <= s) by (nonlinear_arith)
            requires
                2 * x < s,
                s == 1_000_000,
        ;
        (2 * x * x / s) as u32
    } else {
        let d = s - x;
        assert(2 * d * d <= s * s) by (nonlinear_arith)
            requires
                2 * d <= s,
        ;
        assert((2 * d * d) as int / (s as int) <= s) by (nonlinear_arith)
            requires
                2 * d * d <= s * s,
                s == 1_000_000,
        ;
        (s - 2 * d * d / s) as u32
    }
}

/// A motion in flight: the path, when it started, how long it lasts, and
/// the eased progress along the path at the last update.
#[derive(PartialEq, Eq, Structural, Copy, Clone, Debug)]
pub struct Animation {
    pub path: Path,
    pub movement_start: u64,
    pub movement_time: u64,
    pub progress: u32,
}

/// One colored tile of the puzzle.
#[derive(Copy, Clone, Debug)]
pub struct Piece {
    pub(crate) color: ColorTag,
    pub(crate) position: Position,
    pub(crate) animation: Option<Animation>,
}

impl Piece {
    pub open(crate) spec fn color_spec(self) -> ColorTag {
        self.color
    }

    pub open(crate) spec fn position_spec(self) -> Position {
        self.position
    }

    pub open(crate) spec fn animation_spec(self) -> Option<Animation> {
        self.animation
    }

    /// The animation after an update at `now`: gone once the whole duration
    /// has elapsed, else with its eased progress.
    pub open(crate) spec fn advanced(a: Animation, now: u64) -> Option<Animation> {
        let elapsed = elapsed_since(a.movement_start, now);
        if elapsed >= a.movement_time {
            None
        } else {
            Some(
                Animation {
                    progress: eased(linear_progress(elapsed, a.movement_time as int)) as u32,
                    ..a
                },
            )
        }
    }

    /// The piece after an update at `now`.
    pub open(crate) spec fn updated(self, now: u64) -> Piece {
        match self.animation {
            None => self,
            Some(a) => Piece { animation: Piece::advanced(a, now), ..self },
        }
    }

    /// A piece at rest at `position`.
    pub fn new(color: ColorTag, position: Position) -> (r: Self)
        ensures
            r.color_spec() == color,
            r.position_spec() == position,
            r.animation_spec().is_none(),
    {
        Piece { color, position, animation: None }
    }

    pub fn color(&self) -> (r: ColorTag)
        ensures
            r == self.color_spec(),
    {
        self.color
    }

    pub fn position(&self) -> (r: &Position)
        ensures
            *r == self.position_spec(),
    {
        &self.position
    }

    pub fn position_mut(&mut self) -> (r: &mut Position)
        ensures
            *r == old(self).position_spec(),
            final(self).position_spec() == *final(r),
            final(self).color_spec() == old(self).color_spec(),
            final(self).animation_spec() == old(self).animation_spec(),
    {
        &mut self.position
    }

    /// The motion in flight, if any.
    pub fn animation(&self) -> (r: Option<Animation>)
        ensures
            r == self.animation_spec(),
    {
        self.animation
    }

    pub fn is_animating(&self) -> (r: bool)
        ensures
            r == self.animation_spec().is_some(),
    {
        self.animation.is_some()
    }

    /// Starts a motion along `path` that lasts `time` from `now` on, in place
    /// of any motion in flight.
    pub fn start_moving_along(&mut self, path: Path, time: u64, now: u64)
        ensures
            final(self).color_spec() == old(self).color_spec(),
            final(self).position_spec() == old(self).position_spec(),
            final(self).animation_spec() == Some(
                Animation { path, movement_start: now, movement_time: time, progress: 0 },
            ),
    {
        self.animation = Some(Animation { path, movement_start: now, movement_time: time, progress: 0 });
    }

    /// Advances the motion in flight to `now`; it ends once its whole duration
    /// has elapsed.
    pub fn update(&mut self, now: u64)
        ensures
            *final(self) == old(self).updated(now),
    {
        if let Some(a) = self.animation {
            let elapsed = if now >= a.movement_start {
                now - a.movement_start
            } else {
                0
            };
            if elapsed >= a.movement_time {
                self.animation = None;
            } else {
                let s = PROGRESS_SCALE as u128;
                let e = elapsed as u128;
                let t = a.movement_time as u128;
                assert((e * s) as int / (t as int) < s) by (nonlinear_arith)
                    requires
                        e < t,
                        s > 0,
                ;
                let linear = (e * s / t) as u32;
                let progress = ease_in_out_quad(linear);
                self.animation = Some(Animation { progress, ..a });
            }
        }
    }

    /// Whether two pieces carry the same color.
    pub fn has_same_color_as(&self, other: &Piece) -> (r: bool)
        ensures
            r == (self.color_spec() == other.color_spec()),
    {
        self.color == other.color
    }
}

} // verus!
