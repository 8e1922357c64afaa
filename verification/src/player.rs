//! The player: its state, the keyboard rules that steer it, and the
//! missile patterns it fires.

use vstd::prelude::*;
use crate::components::{Movable, Velocity, VelocityTrait};
use crate::{
    in_coord_range, FacingDirection, KeyInput, Location, MissileSpawn, WinSize, FLOOR_POSITION,
    LEFT_WALL, MILLI,
};

verus! {

/// Ticks the player must wait between volleys.
pub const FIRE_DELAY: i32 = 10;

/// Gap between the missiles of one volley.
pub const MISSILE_SPREAD: i64 = 10 * MILLI;

/// Height of the character above the floor line at the start.
pub const CHAR_START_Y: i64 = FLOOR_POSITION + 15 * MILLI;

/// Where the character stands when the game begins.
pub open spec fn char_starting_location() -> Location {
    Location { x: LEFT_WALL, y: CHAR_START_Y, z: 0 }
}

/// The player's state as a fresh game starts.
pub open spec fn initial_player() -> Player {
    Player {
        direction: FacingDirection::Right,
        entity: None,
        fire_delay: 0,
        missile_multiplier: 1,
        location: char_starting_location(),
    }
}

/// A delay one tick later: one less, but never below zero.
pub open spec fn reduced_delay(d: int) -> int {
    if d - 1 < 0 {
        d
    } else {
        d - 1
    }
}

/// The player's persistent state.
#[derive(Clone, Copy, Debug)]
pub struct Player {
    pub direction: FacingDirection,
    pub entity: Option<u64>,
    pub fire_delay: i32,
    pub missile_multiplier: u32,
    pub location: Location,
}

impl VelocityTrait for Player {
    /// Fifty units of speed rightward and three upward.
    open spec fn spec_velocity() -> Velocity {
        Velocity { x: (50 * MILLI) as i64, y: (3 * MILLI) as i64 }
    }

    fn velocity() -> (v: Velocity) {
        Velocity { x: 50 * MILLI, y: 3 * MILLI }
    }
}

impl Player {
    /// The state every rule of this module preserves.
    pub open spec fn wf(self) -> bool {
        &&& self.fire_delay >= 0
        &&& self.missile_multiplier >= 1
        &&& in_coord_range(self.location)
    }

    pub fn new() -> (p: Player)
        ensures
            p == initial_player(),
            p.wf(),
    {
        Player {
            direction: FacingDirection::default(),
            entity: None,
            fire_delay: 0,
            missile_multiplier: 1,
            location: Location { x: LEFT_WALL, y: CHAR_START_Y, z: 0 },
        }
    }

    pub fn direction(&self) -> (d: FacingDirection)
        ensures
            d == self.direction,
    {
        self.direction
    }

    pub fn set_direction(&mut self, direction: FacingDirection)
        ensures
            *final(self) == (Player { direction, ..*old(self) }),
    {
        self.direction = direction;
    }

    pub fn location(&self) -> (loc: Location)
        ensures
            loc == self.location,
    {
        self.location
    }

    /// Moves the player to the given coordinates; an axis given as `None`
    /// keeps its value, and the height above the board never changes.
    pub fn set_location(&mut self, x: Option<i64>, y: Option<i64>)
        ensures
            final(self).location.x == (match x {
                Some(v) => v,
                None => old(self).location.x,
            }),
            final(self).location.y == (match y {
                Some(v) => v,
                None => old(self).location.y,
            }),
            final(self).location.z == old(self).location.z,
            final(self).direction == old(self).direction,
            final(self).entity == old(self).entity,
            final(self).fire_delay == old(self).fire_delay,
            final(self).missile_multiplier == old(self).missile_multiplier,
    {
        if let Some(v) = x {
            self.location.x = v;
        }
        if let Some(v) = y {
            self.location.y = v;
        }
    }

    pub fn fire_delay(&self) -> (d: i32)
        ensures
            d == self.fire_delay,
    {
        self.fire_delay
    }

    /// One tick of cooldown: the delay drops by one but never below zero.
    pub fn reduce_fire_delay(&mut self)
        requires
            old(self).fire_delay >= 0,
        ensures
            final(self).fire_delay == reduced_delay(old(self).fire_delay as int),
            final(self).direction == old(self).direction,
            final(self).entity == old(self).entity,
            final(self).missile_multiplier == old(self).missile_multiplier,
            final(self).location == old(self).location,
    {
        let new_delay: i32 = self.fire_delay() - 1;
        if new_delay < 0 {
            return ;
        }
        self.set_fire_delay(new_delay);
    }

    pub fn increase_missile_multiplier(&mut self, by: u32)
        requires
            old(self).missile_multiplier + by <= u32::MAX,
        ensures
            *final(self) == (Player {
                missile_multiplier: (old(self).missile_multiplier + by) as u32,
                ..*old(self)
            }),
    {
        self.missile_multiplier += by;
    }

    pub fn reset_missile_multiplier(&mut self)
        ensures
            *final(self) == (Player { missile_multiplier: 1u32, ..*old(self) }),
    {
        self.missile_multiplier = 1;
    }

    fn set_fire_delay(&mut self, fire_delay: i32)
        ensures
            *final(self) == (Player { fire_delay, ..*old(self) }),
    {
        self.fire_delay = fire_delay;
    }
}

/// Everything the engine needs to place the player on the board.
#[derive(Clone, Copy, Debug, PartialEq, Eq, Structural)]
pub struct PlayerSpawn {
    pub location: Location,
    pub velocity: Velocity,
    pub movable: Movable,
}

/// Starts a fresh player at a random spot in the window. The caller
/// spawns the sprite and records the entity it was given.
pub fn spawn_player_system(game: &mut crate::Game, win_size: &WinSize) -> (spawn: PlayerSpawn)
    requires
        win_size.wf(),
    ensures
        final(game).player == initial_player(),
        final(game).difficulty == old(game).difficulty,
        spawn.velocity == <Player as VelocityTrait>::spec_velocity(),
        spawn.movable == (Movable { auto_despawn: false }),
        in_coord_range(spawn.location),
        -(win_size.w / 2) <= spawn.location.x < win_size.w / 2,
        -(win_size.h / 2) <= spawn.location.y < win_size.h / 2,
        spawn.location.z == 0,
{
    game.player = Player::new();
    PlayerSpawn {
        location: crate::random_location(win_size),
        velocity: Player::velocity(),
        movable: Movable::new(false),
    }
}

/// The x velocity the movement keys select: left beats right.
pub open spec fn keyboard_velocity_x(keys: KeyInput) -> int {
    if keys.left {
        -MILLI
    } else if keys.right {
        MILLI as int
    } else {
        0
    }
}

/// The y velocity the movement keys select: up beats down.
pub open spec fn keyboard_velocity_y(keys: KeyInput) -> int {
    if keys.up {
        MILLI as int
    } else if keys.down {
        -MILLI
    } else {
        0
    }
}

/// The direction the player ends a frame facing: the vertical keys win
/// over the horizontal ones, and with no key held it keeps its old one.
pub open spec fn keyboard_direction(keys: KeyInput, prev: FacingDirection) -> FacingDirection {
    if keys.up {
        FacingDirection::Up
    } else if keys.down {
        FacingDirection::Down
    } else if keys.left {
        FacingDirection::Left
    } else if keys.right {
        FacingDirection::Right
    } else {
        prev
    }
}

/// Turns the held movement keys into the player's velocity and facing.
pub fn player_keyboard_event_system(player: &mut Player, velocity: &mut Velocity, keys: KeyInput)
    ensures
        final(velocity).x == keyboard_velocity_x(keys),
        final(velocity).y == keyboard_velocity_y(keys),
        final(player).direction == keyboard_direction(keys, old(player).direction),
        final(player).entity == old(player).entity,
        final(player).fire_delay == old(player).fire_delay,
        final(player).missile_multiplier == old(player).missile_multiplier,
        final(player).location == old(player).location,
{
    let vx: i64 = if keys.left {
        player.set_direction(FacingDirection::Left);
        -MILLI
    } else if keys.right {
        player.set_direction(FacingDirection::Right);
        MILLI
    } else {
        0
    };
    velocity.x = vx;
    let vy: i64 = if keys.up {
        player.set_direction(FacingDirection::Up);
        MILLI
    } else if keys.down {
        player.set_direction(FacingDirection::Down);
        -MILLI
    } else {
        0
    };
    velocity.y = vy;
}

/// Whether a frame with these keys fires a volley: the cooldown has run
/// out and the fire key is held.
pub open spec fn shoot_fires(player: Player, keys: KeyInput) -> bool {
    reduced_delay(player.fire_delay as int) <= 0 && keys.space
}

/// The x offset of the `k`-th missile of a volley fired facing `dir`.
pub open spec fn missile_offset_x(dir: FacingDirection, k: int) -> int {
    match dir {
        FacingDirection::Up | FacingDirection::Down => if k % 2 == 0 {
            MISSILE_SPREAD as int
        } else {
            -MISSILE_SPREAD
        },
        FacingDirection::Left | FacingDirection::Right => (k / 2) * MISSILE_SPREAD,
    }
}

/// The y offset of the `k`-th missile of a volley fired facing `dir`.
pub open spec fn missile_offset_y(dir: FacingDirection, k: int) -> int {
    match dir {
        FacingDirection::Up | FacingDirection::Down => (k / 2) * MISSILE_SPREAD,
        FacingDirection::Left | FacingDirection::Right => if k % 2 == 0 {
            MISSILE_SPREAD as int
        } else {
            -MISSILE_SPREAD
        },
    }
}

/// One frame of the fire rule. The cooldown ticks down; if it has run
/// out and the fire key is held, it is wound up again and a volley of
/// twice the missile multiplier is fired around the player's sprite at
/// `translation` (`None` when no player sprite is on the board).
#[verifier::loop_isolation(false)]
pub fn player_shoot_system(player: &mut Player, keys: KeyInput, translation: Option<Location>) -> (
    missiles: Vec<MissileSpawn>)
    requires
        old(player).fire_delay >= 0,
        translation matches Some(t) ==> in_coord_range(t),
    ensures
        final(player).direction == old(player).direction,
        final(player).entity == old(player).entity,
        final(player).missile_multiplier == old(player).missile_multiplier,
        final(player).location == old(player).location,
        final(player).fire_delay == (if shoot_fires(*old(player), keys) {
            FIRE_DELAY as int
        } else {
            reduced_delay(old(player).fire_delay as int)
        }),
        !shoot_fires(*old(player), keys) ==> missiles@.len() == 0,
        translation is None ==> missiles@.len() == 0,
        translation matches Some(t) ==> (shoot_fires(*old(player), keys) ==> {
            &&& missiles@.len() == 2 * old(player).missile_multiplier
            &&& forall|k: int|
                0 <= k < missiles@.len() ==> {
                    &&& (#[trigger] missiles@[k]).direction == old(player).direction
                    &&& missiles@[k].location.x == t.x + missile_offset_x(
                        old(player).direction,
                        k,
                    )
                    &&& missiles@[k].location.y == t.y + missile_offset_y(
                        old(player).direction,
                        k,
                    )
                    &&& missiles@[k].location.z == 0
                }
        }),
{
    player.reduce_fire_delay();
    if player.fire_delay() > 0 {
        return Vec::new();
    }
    if !keys.space {
        return Vec::new();
    }
    player.set_fire_delay(FIRE_DELAY);
    let mut missiles: Vec<MissileSpawn> = Vec::new();
    if let Some(t) = translation {
        let dir: FacingDirection = player.direction();
        let mult: u32 = player.missile_multiplier;
        match dir {
            FacingDirection::Up | FacingDirection::Down => {
                let mut i: u32 = 0;
                while i < mult
                    invariant
                        i <= mult,
                        missiles@.len() == 2 * i,
                        forall|k: int|
                            0 <= k < missiles@.len() ==> {
                                &&& (#[trigger] missiles@[k]).direction == dir
                                &&& missiles@[k].location.x == t.x + missile_offset_x(dir, k)
                                &&& missiles@[k].location.y == t.y + missile_offset_y(dir, k)
                                &&& missiles@[k].location.z == 0
                            },
                    decreases mult - i,
                {
                    let row: i64 = (i as i64) * MISSILE_SPREAD;
                    missiles.push(
                        MissileSpawn {
                            location: Location { x: t.x + MISSILE_SPREAD, y: t.y + row, z: 0 },
                            direction: dir,
                        },
                    );
                    missiles.push(
                        MissileSpawn {
                            location: Location { x: t.x - MISSILE_SPREAD, y: t.y + row, z: 0 },
                            direction: dir,
                        },
                    );
                    i = i + 1;
                }
            },
            FacingDirection::Left | FacingDirection::Right => {
                let mut i: u32 = 0;
                while i < mult
                    invariant
                        i <= mult,
                        missiles@.len() == 2 * i,
                        forall|k: int|
                            0 <= k < missiles@.len() ==> {
                                &&& (#[trigger] missiles@[k]).direction == dir
                                &&& missiles@[k].location.x == t.x + missile_offset_x(dir, k)
                                &&& missiles@[k].location.y == t.y + missile_offset_y(dir, k)
                                &&& missiles@[k].location.z == 0
                            },
                    decreases mult - i,
                {
                    let col: i64 = (i as i64) * MISSILE_SPREAD;
                    missiles.push(
                        MissileSpawn {
                            location: Location { x: t.x + col, y: t.y + MISSILE_SPREAD, z: 0 },
                            direction: dir,
                        },
                    );
                    missiles.push(
                        MissileSpawn {
                            location: Location { x: t.x + col, y: t.y - MISSILE_SPREAD, z: 0 },
                            direction: dir,
                        },
                    );
                    i = i + 1;
                }
            },
        }
    }
    missiles
}

} // verus!
