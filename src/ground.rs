use vstd::prelude::*;
use crate::geometry::{Rotation, Vec2i, turn};

verus! {

/// Share of the velocity, in percent, that gravel keeps each tick.
pub const GRAVEL_KEEP_PERCENT: u32 = 80;

/// Share of the velocity, in percent, that heavy gravel keeps each tick.
pub const HEAVY_GRAVEL_KEEP_PERCENT: u32 = 50;

/// The surface of a tile.
#[derive(Clone, Copy, Debug, PartialEq, Eq, Structural)]
pub enum GroundType {
    Grass,
    Water,
    Gravel,
    GravelHeavy,
    Slope(Rotation),
    SlopeDiagonal(Rotation),
}

/// What the ground under a ball does to it in one tick.
#[derive(Clone, Copy, Debug, PartialEq, Eq, Structural)]
pub enum GroundEffect {
    /// Nothing changes.
    Keep,
    /// The velocity keeps this many percent of itself.
    Damp(u32),
    /// The unit vector along this nonzero direction is added to the velocity:
    /// a slope pulls with strength one whichever way it faces.
    Pull(Vec2i),
    /// The ball goes back to this position and stops.
    Reset(Vec2i),
}

/// The downhill direction of a slope facing North.
pub open spec fn slope_pull() -> (int, int) {
    (0, -1)
}

/// The downhill direction of a diagonal slope facing North; the pull is the
/// unit vector along it.
pub open spec fn diagonal_pull() -> (int, int) {
    (-1, -1)
}

impl GroundType {
    /// The effect of this ground, where `start` is the course's start location.
    pub open spec fn effect_spec(self, start: Vec2i) -> GroundEffect {
        match self {
            GroundType::Grass => GroundEffect::Keep,
            GroundType::Water => GroundEffect::Reset(start),
            GroundType::Gravel => GroundEffect::Damp(GRAVEL_KEEP_PERCENT),
            GroundType::GravelHeavy => GroundEffect::Damp(HEAVY_GRAVEL_KEEP_PERCENT),
            GroundType::Slope(r) => GroundEffect::Pull(
                Vec2i { x: turn(slope_pull(), r).0 as i64, y: turn(slope_pull(), r).1 as i64 },
            ),
            GroundType::SlopeDiagonal(r) => GroundEffect::Pull(
                Vec2i { x: turn(diagonal_pull(), r).0 as i64, y: turn(diagonal_pull(), r).1 as i64 },
            ),
        }
    }

    /// The effect of this ground on a ball standing on it for one tick, where
    /// `start` is the course's start location.
    pub fn do_effect(&self, start: &Vec2i) -> (r: GroundEffect)
        ensures
            r == self.effect_spec(*start),
            r matches GroundEffect::Pull(d) ==> d@ != (0int, 0int),
    {
        let zero = Vec2i { x: 0, y: 0 };
        match self {
            GroundType::Grass => GroundEffect::Keep,
            GroundType::Water => GroundEffect::Reset(*start),
            GroundType::Gravel => GroundEffect::Damp(GRAVEL_KEEP_PERCENT),
            GroundType::GravelHeavy => GroundEffect::Damp(HEAVY_GRAVEL_KEEP_PERCENT),
            GroundType::Slope(rot) => GroundEffect::Pull(
                Vec2i { x: 0, y: -1 }.rotate(&zero, rot),
            ),
            GroundType::SlopeDiagonal(rot) => GroundEffect::Pull(
                Vec2i { x: -1, y: -1 }.rotate(&zero, rot),
            ),
        }
    }
}

/// A slope's pull points along one axis, and a diagonal slope's along a
/// diagonal, for each of the four rotations: the unit vector added is the
/// direction itself for a slope and the direction divided by the square root
/// of two for a diagonal slope.
pub proof fn lemma_pull_directions(r: Rotation)
    ensures
        turn(slope_pull(), r).0 * turn(slope_pull(), r).0 + turn(slope_pull(), r).1 * turn(
            slope_pull(),
            r,
        ).1 == 1,
        turn(diagonal_pull(), r).0 * turn(diagonal_pull(), r).0 == 1,
        turn(diagonal_pull(), r).1 * turn(diagonal_pull(), r).1 == 1,
{
    let a = turn(slope_pull(), r);
    let d = turn(diagonal_pull(), r);
    assert((a.0 == 0 && (a.1 == 1 || a.1 == -1)) || (a.1 == 0 && (a.0 == 1 || a.0 == -1)));
    assert((d.0 == 1 || d.0 == -1) && (d.1 == 1 || d.1 == -1));
    assert(a.0 * a.0 + a.1 * a.1 == 1) by (nonlinear_arith)
        requires
            (a.0 == 0 && (a.1 == 1 || a.1 == -1)) || (a.1 == 0 && (a.0 == 1 || a.0 == -1)),
    ;
    assert(d.0 * d.0 == 1 && d.1 * d.1 == 1) by (nonlinear_arith)
        requires
            (d.0 == 1 || d.0 == -1) && (d.1 == 1 || d.1 == -1),
    ;
}

} // verus!
