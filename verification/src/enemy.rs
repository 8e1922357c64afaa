//! Enemies: the spawn roll, the bundle a new enemy is placed with, and
//! their drift across the board.

use vstd::prelude::*;
use crate::components::{vel_in_range, Movable, SpriteSize, Velocity, VelocityTrait};
use crate::{in_coord_range, movement_step, rng, Difficulty, Location, WinSize, FRAME_SPEED, MILLI};

verus! {

/// Extent of an enemy's sprite: two thirds of the player sprite's width,
/// on both axes.
pub const ENEMY_SPRITE_SIZE: i64 = 96 * MILLI;

/// Marker for enemy entities.
#[derive(Clone, Copy, Debug)]
pub struct Enemy;

impl VelocityTrait for Enemy {
    /// Half a unit of speed rightward.
    open spec fn spec_velocity() -> Velocity {
        Velocity { x: (MILLI / 2) as i64, y: 0 }
    }

    fn velocity() -> (v: Velocity) {
        Velocity { x: 500, y: 0 }
    }
}

/// The pool the spawn roll draws from: the harder the game, the larger
/// the share of `true`.
pub open spec fn spawn_choices(difficulty: Difficulty) -> Seq<bool> {
    match difficulty {
        Difficulty::Novice => seq![true, false, false, false, false],
        Difficulty::Hard => seq![true, false],
        Difficulty::Expert => seq![true],
    }
}

/// Rolls whether an enemy appears this frame. The roll draws uniformly
/// from the difficulty's pool, so an expert game spawns every frame.
pub fn should_spawn_enemy(difficulty: Difficulty) -> (spawn: bool)
    ensures
        spawn_choices(difficulty).contains(spawn),
        difficulty is Expert ==> spawn,
{
    let choices: Vec<bool> = match difficulty {
        Difficulty::Novice => vec![true, false, false, false, false],
        Difficulty::Hard => vec![true, false],
        Difficulty::Expert => vec![true],
    };
    proof {
        assert(choices@ =~= spawn_choices(difficulty));
    }
    match rng::choose_bool(&choices) {
        Some(spawn) => spawn,
        None => false,
    }
}

/// Everything the engine needs to place one enemy on the board.
#[derive(Clone, Copy, Debug, PartialEq, Eq, Structural)]
pub struct EnemySpawn {
    pub location: Location,
    pub velocity: Velocity,
    pub movable: Movable,
    pub sprite_size: SpriteSize,
}

/// One frame of the spawn rule: on a successful roll, a bundle for a new
/// enemy at a random spot in the window, drifting and auto-despawning.
pub fn spawn_enemy_system(difficulty: Difficulty, win_size: &WinSize) -> (spawn: Option<EnemySpawn>)
    requires
        win_size.wf(),
    ensures
        difficulty is Expert ==> spawn is Some,
        spawn matches Some(e) ==> {
            &&& e.velocity == <Enemy as VelocityTrait>::spec_velocity()
            &&& e.movable == (Movable { auto_despawn: true })
            &&& e.sprite_size == (SpriteSize { w: ENEMY_SPRITE_SIZE, h: ENEMY_SPRITE_SIZE })
            &&& in_coord_range(e.location)
            &&& -(win_size.w / 2) <= e.location.x < win_size.w / 2
            &&& -(win_size.h / 2) <= e.location.y < win_size.h / 2
            &&& e.location.z == 0
        },
{
    if !should_spawn_enemy(difficulty) {
        return None;
    }
    Some(
        EnemySpawn {
            location: crate::random_location(win_size),
            velocity: Enemy::velocity(),
            movable: Movable::new(true),
            sprite_size: SpriteSize { w: ENEMY_SPRITE_SIZE, h: ENEMY_SPRITE_SIZE },
        },
    )
}

/// Drifts every enemy one frame along its velocity.
#[verifier::loop_isolation(false)]
pub fn enemy_movement_system(enemies: &mut Vec<(Velocity, Location)>)
    requires
        forall|i: int|
            0 <= i < old(enemies)@.len() ==> in_coord_range(#[trigger] old(enemies)@[i].1)
                && vel_in_range(old(enemies)@[i].0),
    ensures
        final(enemies)@.len() == old(enemies)@.len(),
        forall|i: int|
            0 <= i < old(enemies)@.len() ==> {
                &&& (#[trigger] final(enemies)@[i]).0 == old(enemies)@[i].0
                &&& final(enemies)@[i].1.x == old(enemies)@[i].1.x + old(enemies)@[i].0.x
                    * FRAME_SPEED
                &&& final(enemies)@[i].1.y == old(enemies)@[i].1.y + old(enemies)@[i].0.y
                    * FRAME_SPEED
                &&& final(enemies)@[i].1.z == old(enemies)@[i].1.z
            },
{
    let n: usize = enemies.len();
    let mut idx: usize = 0;
    while idx < n
        invariant
            idx <= n,
            enemies@.len() == n,
            forall|i: int| idx <= i < n ==> #[trigger] enemies@[i] == old(enemies)@[i],
            forall|i: int|
                0 <= i < idx ==> {
                    &&& (#[trigger] enemies@[i]).0 == old(enemies)@[i].0
                    &&& enemies@[i].1.x == old(enemies)@[i].1.x + old(enemies)@[i].0.x
                        * FRAME_SPEED
                    &&& enemies@[i].1.y == old(enemies)@[i].1.y + old(enemies)@[i].0.y
                        * FRAME_SPEED
                    &&& enemies@[i].1.z == old(enemies)@[i].1.z
                },
        decreases n - idx,
    {
        let velocity: Velocity = enemies[idx].0;
        let mut translation: Location = enemies[idx].1;
        movement_step(&mut translation, &velocity);
        enemies[idx].1 = translation;
        idx = idx + 1;
    }
}

} // verus!
