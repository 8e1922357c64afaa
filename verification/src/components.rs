//! Components attached to the game's entities: who fired what, how it
//! moves, whether it despawns at the board's edge, and how large its
//! sprite is.

use vstd::prelude::*;

verus! {

/// Marker for entities that an enemy produced.
#[derive(Clone, Copy, Debug)]
pub struct FromEnemy;

/// Marker for entities that the player produced.
#[derive(Clone, Copy, Debug)]
pub struct FromPlayer;

/// A velocity in fixed-point units: [`crate::MILLI`] to one unit of speed.
#[derive(Clone, Copy, Debug, PartialEq, Eq, Structural)]
pub struct Velocity {
    pub x: i64,
    pub y: i64,
}

/// Largest velocity magnitude the movement rules accept.
pub const VEL_LIMIT: i64 = 1_000_000;

/// True when both components are small enough for one integration step
/// to stay clear of overflow.
pub open spec fn vel_in_range(v: Velocity) -> bool {
    &&& -VEL_LIMIT <= v.x <= VEL_LIMIT
    &&& -VEL_LIMIT <= v.y <= VEL_LIMIT
}

/// Entities with a characteristic velocity.
pub trait VelocityTrait {
    /// The characteristic velocity, as a mathematical value.
    spec fn spec_velocity() -> Velocity;

    fn velocity() -> (v: Velocity)
        ensures
            v == Self::spec_velocity(),
    ;
}

/// Whether an entity is removed once it leaves the board (plus margin).
#[derive(Clone, Copy, Debug, PartialEq, Eq, Structural)]
pub struct Movable {
    pub auto_despawn: bool,
}

impl Movable {
    pub fn new(auto_despawn: bool) -> (m: Movable)
        ensures
            m == (Movable { auto_despawn }),
    {
        Movable { auto_despawn }
    }
}

/// The extent of an entity's sprite, in fixed-point pixels.
#[derive(Clone, Copy, Debug, PartialEq, Eq, Structural)]
pub struct SpriteSize {
    pub w: i64,
    pub h: i64,
}

/// True when both extents are nonnegative and small enough for the
/// overlap test to stay clear of overflow.
pub open spec fn size_in_range(s: SpriteSize) -> bool {
    &&& 0 <= s.w <= crate::COORD_LIMIT
    &&& 0 <= s.h <= crate::COORD_LIMIT
}

impl From<(i64, i64)> for SpriteSize {
    fn from(val: (i64, i64)) -> (s: SpriteSize)
        ensures
            s == (SpriteSize { w: val.0, h: val.1 }),
    {
        SpriteSize { w: val.0, h: val.1 }
    }
}

impl vstd::std_specs::convert::FromSpecImpl<(i64, i64)> for SpriteSize {
    open spec fn obeys_from_spec() -> bool {
        true
    }

    open spec fn from_spec(val: (i64, i64)) -> SpriteSize {
        SpriteSize { w: val.0, h: val.1 }
    }
}

} // verus!
