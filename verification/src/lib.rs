//! Core rules of a small 2-D arcade shooter.
//!
//! The library holds the game's per-frame decision logic: player movement
//! between walls, missile travel, enemy spawn rolls, axis-aligned box
//! overlap, and boundary despawn. The host engine (rendering, input,
//! entity storage) sits outside and hands these functions plain values.
//!
//! All coordinates, sizes and velocities are fixed-point integers with
//! [`MILLI`] units to the pixel, so every rule is exact integer arithmetic.

use vstd::prelude::*;

pub mod components;
pub mod enemy;
pub mod player;
mod rng;

use crate::components::{size_in_range, vel_in_range, Movable, SpriteSize, Velocity, VelocityTrait};

verus! {

/// Fixed-point scale: coordinate units per pixel.
pub const MILLI: i64 = 1000;

/// Largest coordinate magnitude the movement rules accept.
pub const COORD_LIMIT: i64 = 2_000_000_000;

/// Vertical position of the floor line.
pub const FLOOR_POSITION: i64 = -350 * MILLI;

/// Distance the player covers in one movement step.
pub const TILE_MOVE_SIZE: i64 = 5 * MILLI;

/// Distance a missile covers in one frame.
pub const MISSILE_TRAVEL: i64 = 20 * MILLI;

pub const LEFT_WALL: i64 = -600 * MILLI;
pub const RIGHT_WALL: i64 = 600 * MILLI;
pub const BOTTOM_WALL: i64 = -400 * MILLI;
pub const TOP_WALL: i64 = 400 * MILLI;

pub const BOARD_WIDTH: i64 = 1200 * MILLI;
pub const BOARD_HEIGHT: i64 = 800 * MILLI;

/// A point in board space (fixed-point, [`MILLI`] units per pixel).
#[derive(Clone, Copy, Debug, PartialEq, Eq, Structural)]
pub struct Location {
    pub x: i64,
    pub y: i64,
    pub z: i64,
}

/// True when every coordinate is small enough for the movement rules
/// to stay clear of overflow.
pub open spec fn in_coord_range(loc: Location) -> bool {
    &&& -COORD_LIMIT <= loc.x <= COORD_LIMIT
    &&& -COORD_LIMIT <= loc.y <= COORD_LIMIT
    &&& -COORD_LIMIT <= loc.z <= COORD_LIMIT
}

impl Default for Location {
    fn default() -> (loc: Location)
        ensures
            loc == (Location { x: 0i64, y: 0i64, z: 0i64 }),
    {
        Location { x: 0, y: 0, z: 0 }
    }
}

/// The size of the window the board is drawn in, in fixed-point pixels.
#[derive(Clone, Copy, Debug, PartialEq, Eq, Structural)]
pub struct WinSize {
    pub w: i64,
    pub h: i64,
}

impl WinSize {
    /// A window the spawn rules can work with: positive extent, and small
    /// enough that every point inside it is in coordinate range.
    pub open spec fn wf(self) -> bool {
        &&& 2 <= self.w <= COORD_LIMIT
        &&& 2 <= self.h <= COORD_LIMIT
    }
}

/// The way the player (and each missile the player fires) is facing.
#[derive(Clone, Copy, Debug, PartialEq, Eq, Structural)]
pub enum FacingDirection {
    Left,
    Right,
    Up,
    Down,
}

impl Default for FacingDirection {
    fn default() -> (d: FacingDirection)
        ensures
            d == FacingDirection::Right,
    {
        FacingDirection::Right
    }
}

/// How often the enemy spawn roll comes up true.
#[derive(Clone, Copy, Debug, PartialEq, Eq, Structural)]
pub enum Difficulty {
    Novice,
    Hard,
    Expert,
}

/// A missile in flight, moving the way it faced when fired.
#[derive(Clone, Copy, Debug, PartialEq, Eq, Structural)]
pub struct Projectile {
    pub direction: FacingDirection,
}

impl Projectile {
    pub fn new(direction: FacingDirection) -> (p: Projectile)
        ensures
            p == (Projectile { direction }),
    {
        Projectile { direction }
    }
}

impl VelocityTrait for Projectile {
    /// One unit of speed rightward.
    open spec fn spec_velocity() -> Velocity {
        Velocity { x: MILLI, y: 0 }
    }

    fn velocity() -> (v: Velocity) {
        Velocity { x: MILLI, y: 0 }
    }
}

/// The game's own state beside the engine's: the player and how hard
/// the enemies press.
#[derive(Clone, Copy, Debug)]
pub struct Game {
    pub player: player::Player,
    pub difficulty: Difficulty,
}

impl Game {
    pub fn new() -> (g: Game)
        ensures
            g.player == player::initial_player(),
            g.difficulty == Difficulty::Novice,
    {
        Game { player: player::Player::new(), difficulty: Difficulty::Novice }
    }
}

/// One frame's snapshot of the keys the game reads.
#[derive(Clone, Copy, Debug, PartialEq, Eq, Structural)]
pub struct KeyInput {
    pub left: bool,
    pub right: bool,
    pub up: bool,
    pub down: bool,
    pub space: bool,
}

/// Everything the engine needs to place one missile on the board.
#[derive(Clone, Copy, Debug, PartialEq, Eq, Structural)]
pub struct MissileSpawn {
    pub location: Location,
    pub direction: FacingDirection,
}

/// Pixels an entity with one unit of velocity moves in a frame
/// (the fixed time step times the base speed).
pub const FRAME_SPEED: i64 = 8;

/// Sprite scale factor, in [`MILLI`] units (one half).
pub const SPRITE_SCALE: i64 = 500;

/// Width and height of the player's sprite sheet cell.
pub const SPRITE_SIZE_W: i64 = 144 * MILLI;
pub const SPRITE_SIZE_H: i64 = 75 * MILLI;

/// Extent a missile sprite is stretched to.
pub const MISSILE_SIZE_W: i64 = 120 * MILLI;
pub const MISSILE_SIZE_H: i64 = 20 * MILLI;

/// How far past the missile's muzzle a new missile appears.
pub const SHOOT_OFFSET: i64 = 5 * MILLI;

/// How far past the window's edge an auto-despawning entity survives.
pub const DESPAWN_MARGIN: i64 = 50 * MILLI;

/// A location drawn uniformly from the window's extent, around its center.
pub fn random_location(win_size: &WinSize) -> (loc: Location)
    requires
        win_size.wf(),
    ensures
        -(win_size.w / 2) <= loc.x < win_size.w / 2,
        -(win_size.h / 2) <= loc.y < win_size.h / 2,
        loc.z == 0,
        in_coord_range(loc),
{
    let half_w: i64 = win_size.w / 2;
    let half_h: i64 = win_size.h / 2;
    let x: i64 = rng::gen_range_i64(-half_w, half_w);
    let y: i64 = rng::gen_range_i64(-half_h, half_h);
    Location { x, y, z: 0 }
}

/// One integration step: the location advances by the velocity scaled to
/// a frame.
pub fn movement_step(loc: &mut Location, v: &Velocity)
    requires
        in_coord_range(*old(loc)),
        vel_in_range(*v),
    ensures
        final(loc).x == old(loc).x + v.x * FRAME_SPEED,
        final(loc).y == old(loc).y + v.y * FRAME_SPEED,
        final(loc).z == old(loc).z,
{
    loc.x = loc.x + v.x * FRAME_SPEED;
    loc.y = loc.y + v.y * FRAME_SPEED;
}

/// The direction the movement keys select, highest priority first:
/// right, left, up, down.
pub open spec fn pressed_direction(keys: KeyInput) -> Option<FacingDirection> {
    if keys.right {
        Some(FacingDirection::Right)
    } else if keys.left {
        Some(FacingDirection::Left)
    } else if keys.up {
        Some(FacingDirection::Up)
    } else if keys.down {
        Some(FacingDirection::Down)
    } else {
        None
    }
}

/// The x coordinate one movement step in `dir` away from `x`.
pub open spec fn stepped_x(x: int, dir: FacingDirection) -> int {
    match dir {
        FacingDirection::Right => x + TILE_MOVE_SIZE,
        FacingDirection::Left => x - TILE_MOVE_SIZE,
        _ => x,
    }
}

/// The y coordinate one movement step in `dir` away from `y`.
pub open spec fn stepped_y(y: int, dir: FacingDirection) -> int {
    match dir {
        FacingDirection::Up => y + TILE_MOVE_SIZE,
        FacingDirection::Down => y - TILE_MOVE_SIZE,
        _ => y,
    }
}

/// Whether a step from `loc` in `dir` lands strictly inside the walls.
pub open spec fn move_allowed(loc: Location, dir: FacingDirection) -> bool {
    match dir {
        FacingDirection::Right => loc.x + TILE_MOVE_SIZE < RIGHT_WALL,
        FacingDirection::Left => loc.x - TILE_MOVE_SIZE > LEFT_WALL,
        FacingDirection::Up => loc.y + TILE_MOVE_SIZE < TOP_WALL,
        FacingDirection::Down => loc.y - TILE_MOVE_SIZE > BOTTOM_WALL,
    }
}

/// One frame of tile-wise player movement. With a movement key held the
/// player turns that way and, if the step keeps it strictly inside the
/// walls, walks one tile. The returned location, the spot the player
/// stood on, is where the engine's sprite catches up to.
pub fn player_action(player: &mut player::Player, keys: KeyInput) -> (moved: Option<Location>)
    requires
        in_coord_range(old(player).location),
    ensures
        final(player).entity == old(player).entity,
        final(player).fire_delay == old(player).fire_delay,
        final(player).missile_multiplier == old(player).missile_multiplier,
        pressed_direction(keys) is None ==> *final(player) == *old(player) && moved is None,
        pressed_direction(keys) matches Some(dir) ==> {
            &&& final(player).direction == dir
            &&& (move_allowed(old(player).location, dir) ==> {
                &&& final(player).location.x == stepped_x(old(player).location.x as int, dir)
                &&& final(player).location.y == stepped_y(old(player).location.y as int, dir)
                &&& final(player).location.z == old(player).location.z
                &&& moved == Some(old(player).location)
            })
            &&& (!move_allowed(old(player).location, dir) ==> {
                &&& final(player).location == old(player).location
                &&& moved is None
            })
        },
{
    let loc: Location = player.location();
    let mut moved: bool = false;
    let mut new_x: i64 = loc.x;
    let mut new_y: i64 = loc.y;
    if keys.right {
        player.set_direction(FacingDirection::Right);
        new_x = loc.x + TILE_MOVE_SIZE;
        if new_x < RIGHT_WALL {
            moved = true;
        }
    } else if keys.left {
        player.set_direction(FacingDirection::Left);
        new_x = loc.x - TILE_MOVE_SIZE;
        if new_x > LEFT_WALL {
            moved = true;
        }
    } else if keys.up {
        player.set_direction(FacingDirection::Up);
        new_y = loc.y + TILE_MOVE_SIZE;
        if new_y < TOP_WALL {
            moved = true;
        }
    } else if keys.down {
        player.set_direction(FacingDirection::Down);
        new_y = loc.y - TILE_MOVE_SIZE;
        if new_y > BOTTOM_WALL {
            moved = true;
        }
    }
    if moved {
        let update: Location = player.location();
        player.set_location(Some(new_x), Some(new_y));
        Some(update)
    } else {
        None
    }
}

/// One frame of the plain fire rule: with the fire key held, a single
/// missile appears one step ahead of the player, facing the player's way.
pub fn shoot_action(player: &player::Player, keys: KeyInput) -> (missile: Option<MissileSpawn>)
    requires
        in_coord_range(player.location),
    ensures
        !keys.space ==> missile is None,
        keys.space ==> missile is Some,
        missile matches Some(m) ==> {
            &&& m.direction == player.direction
            &&& m.location.x == player.location.x + SHOOT_OFFSET
            &&& m.location.y == player.location.y
            &&& m.location.z == player.location.z
        },
{
    if !keys.space {
        return None;
    }
    let loc: Location = player.location();
    Some(
        MissileSpawn {
            location: Location { x: loc.x + SHOOT_OFFSET, y: loc.y, z: loc.z },
            direction: player.direction(),
        },
    )
}

/// Axis-aligned box overlap: two sprites centered at `a_pos` and `b_pos`
/// with extents `a_size` and `b_size` intersect on both axes. Stated over
/// doubled coordinates so that halving the extents loses nothing.
pub open spec fn spec_collide(
    a_pos: Location,
    a_size: SpriteSize,
    b_pos: Location,
    b_size: SpriteSize,
) -> bool {
    &&& 2 * a_pos.x - a_size.w < 2 * b_pos.x + b_size.w
    &&& 2 * a_pos.x + a_size.w > 2 * b_pos.x - b_size.w
    &&& 2 * a_pos.y - a_size.h < 2 * b_pos.y + b_size.h
    &&& 2 * a_pos.y + a_size.h > 2 * b_pos.y - b_size.h
}

/// The axis-aligned bounding-box collision test.
pub fn collide(a_pos: &Location, a_size: &SpriteSize, b_pos: &Location, b_size: &SpriteSize) -> (r:
    bool)
    requires
        in_coord_range(*a_pos),
        in_coord_range(*b_pos),
        size_in_range(*a_size),
        size_in_range(*b_size),
    ensures
        r == spec_collide(*a_pos, *a_size, *b_pos, *b_size),
{
    let x_overlap: bool = 2 * a_pos.x - a_size.w < 2 * b_pos.x + b_size.w && 2 * a_pos.x + a_size.w
        > 2 * b_pos.x - b_size.w;
    let y_overlap: bool = 2 * a_pos.y - a_size.h < 2 * b_pos.y + b_size.h && 2 * a_pos.y + a_size.h
        > 2 * b_pos.y - b_size.h;
    x_overlap && y_overlap
}

/// Whether `loc` lies outside the window by more than the despawn margin.
pub open spec fn out_of_bounds(loc: Location, win: WinSize) -> bool {
    ||| 2 * loc.y > win.h + 2 * DESPAWN_MARGIN
    ||| 2 * loc.y < -win.h - 2 * DESPAWN_MARGIN
    ||| 2 * loc.x > win.w + 2 * DESPAWN_MARGIN
    ||| 2 * loc.x < -win.w - 2 * DESPAWN_MARGIN
}

/// The boundary despawn rule: an entity is removed when it auto-despawns
/// and has left the window by more than the margin.
pub fn should_despawn(movable: &Movable, loc: &Location, win: &WinSize) -> (r: bool)
    requires
        in_coord_range(*loc),
        win.wf(),
    ensures
        r == (movable.auto_despawn && out_of_bounds(*loc, *win)),
{
    if !movable.auto_despawn {
        return false;
    }
    let above: bool = 2 * loc.y > win.h + 2 * DESPAWN_MARGIN;
    let below: bool = 2 * loc.y < -win.h - 2 * DESPAWN_MARGIN;
    let right: bool = 2 * loc.x > win.w + 2 * DESPAWN_MARGIN;
    let left: bool = 2 * loc.x < -win.w - 2 * DESPAWN_MARGIN;
    above || below || right || left
}

/// The positions of the floor tiles: a row of 1600 tiles, one pixel
/// apart, along the window's bottom edge.
#[verifier::loop_isolation(false)]
pub fn floor_tile_positions(win: &WinSize) -> (tiles: Vec<Location>)
    requires
        win.wf(),
    ensures
        tiles@.len() == 1600,
        forall|i: int|
            0 <= i < 1600 ==> {
                &&& (#[trigger] tiles@[i]).x == (i - 800) * MILLI
                &&& tiles@[i].y == -(win.h / 2)
                &&& tiles@[i].z == 0
            },
{
    let bottom: i64 = -(win.h / 2);
    let mut tiles: Vec<Location> = Vec::new();
    let mut num: i64 = -800;
    while num < 800
        invariant
            -800 <= num <= 800,
            tiles@.len() == num + 800,
            forall|i: int|
                0 <= i < tiles@.len() ==> {
                    &&& (#[trigger] tiles@[i]).x == (i - 800) * MILLI
                    &&& tiles@[i].y == bottom
                    &&& tiles@[i].z == 0
                },
        decreases 800 - num,
    {
        tiles.push(Location { x: num * MILLI, y: bottom, z: 0 });
        num = num + 1;
    }
    tiles
}

/// One frame of missile flight: each missile advances [`MISSILE_TRAVEL`]
/// in the direction it faces.
pub open spec fn missile_stepped_x(x: int, dir: FacingDirection) -> int {
    match dir {
        FacingDirection::Right => x + MISSILE_TRAVEL,
        FacingDirection::Left => x - MISSILE_TRAVEL,
        _ => x,
    }
}

pub open spec fn missile_stepped_y(y: int, dir: FacingDirection) -> int {
    match dir {
        FacingDirection::Up => y + MISSILE_TRAVEL,
        FacingDirection::Down => y - MISSILE_TRAVEL,
        _ => y,
    }
}

/// Advances every missile one frame in the direction it faces.
#[verifier::loop_isolation(false)]
pub fn move_missiles(missiles: &mut Vec<(Projectile, Location)>)
    requires
        forall|i: int|
            0 <= i < old(missiles)@.len() ==> in_coord_range(#[trigger] old(missiles)@[i].1),
    ensures
        final(missiles)@.len() == old(missiles)@.len(),
        forall|i: int|
            0 <= i < old(missiles)@.len() ==> {
                &&& (#[trigger] final(missiles)@[i]).0 == old(missiles)@[i].0
                &&& final(missiles)@[i].1.x == missile_stepped_x(
                    old(missiles)@[i].1.x as int,
                    old(missiles)@[i].0.direction,
                )
                &&& final(missiles)@[i].1.y == missile_stepped_y(
                    old(missiles)@[i].1.y as int,
                    old(missiles)@[i].0.direction,
                )
                &&& final(missiles)@[i].1.z == old(missiles)@[i].1.z
            },
{
    let n: usize = missiles.len();
    let mut idx: usize = 0;
    while idx < n
        invariant
            idx <= n,
            missiles@.len() == n,
            forall|i: int|
                idx <= i < n ==> #[trigger] missiles@[i] == old(missiles)@[i],
            forall|i: int|
                0 <= i < idx ==> {
                    &&& (#[trigger] missiles@[i]).0 == old(missiles)@[i].0
                    &&& missiles@[i].1.x == missile_stepped_x(
                        old(missiles)@[i].1.x as int,
                        old(missiles)@[i].0.direction,
                    )
                    &&& missiles@[i].1.y == missile_stepped_y(
                        old(missiles)@[i].1.y as int,
                        old(missiles)@[i].0.direction,
                    )
                    &&& missiles@[i].1.z == old(missiles)@[i].1.z
                },
        decreases n - idx,
    {
        let dir: FacingDirection = missiles[idx].0.direction;
        let loc: Location = missiles[idx].1;
        let stepped: Location = match dir {
            FacingDirection::Up => Location { y: loc.y + MISSILE_TRAVEL, ..loc },
            FacingDirection::Down => Location { y: loc.y - MISSILE_TRAVEL, ..loc },
            FacingDirection::Left => Location { x: loc.x - MISSILE_TRAVEL, ..loc },
            FacingDirection::Right => Location { x: loc.x + MISSILE_TRAVEL, ..loc },
        };
        missiles[idx].1 = stepped;
        idx = idx + 1;
    }
}

} // verus!
