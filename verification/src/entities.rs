//! The live entities: the player, the web that hangs above it, and the
//! enemies. This module holds the movement rules, the sprite-animation
//! stepping, and enemy spawning: where a new enemy appears, which way it
//! flies and what kind it is, drawn from a bounded random source.

use vstd::prelude::*;
use rand::Rng;
use crate::{MOVE_SPEED, PX, SPRINT_SPEED};
use crate::controller::PlayerControllerState;
use crate::geom::{Aabb, POS_LIMIT};
use crate::state::GameState;
use crate::timer::{RepeatTimer, spec_acc_plus};

verus! {

/// How far from the arena centre the player may walk, in micro-pixels.
pub const ARENA_BOUND_X: i64 = 618 * PX;

/// How far up or down the player may walk, in micro-pixels.
pub const ARENA_BOUND_Y: i64 = 328 * PX;

/// How far above the player the web's centre hangs, in micro-pixels.
pub const WEB_OFFSET_Y: i64 = 500 * PX;

/// Half-extents of the player's catch box (a 64-pixel sprite).
pub const PLAYER_HALF: i64 = 32 * PX;

/// Half-width of the web strip (a 3-pixel-wide sprite).
pub const WEB_HALF_W: i64 = 1_500_000;

/// Half-height of the web strip (a 1000-pixel-tall sprite).
pub const WEB_HALF_H: i64 = 500 * PX;

/// The two kinds of insect. A fly drifts slowly and bobs up and down; a
/// mosquito darts straight across at four times the speed.
#[derive(Clone, Copy, Debug, PartialEq, Eq, Structural)]
pub enum EnemyType {
    Fly,
    Mosquito,
}

impl EnemyType {
    /// Horizontal speed, in pixels per second.
    pub open spec fn spec_speed(self) -> i64 {
        match self {
            EnemyType::Fly => 64,
            EnemyType::Mosquito => 256,
        }
    }

    /// Half-width of the collision box, in micro-pixels (the sprite is
    /// 16 pixels wide and displayed at twice its size).
    pub open spec fn spec_half_width(self) -> i64 {
        (16 * PX) as i64
    }

    /// Half-height of the collision box, in micro-pixels.
    pub open spec fn spec_half_height(self) -> i64 {
        match self {
            EnemyType::Fly => (16 * PX) as i64,
            EnemyType::Mosquito => (10 * PX) as i64,
        }
    }

    /// Sprite height in pixels, used as the vertical spawn margin.
    pub open spec fn spec_sprite_height(self) -> i64 {
        match self {
            EnemyType::Fly => 16,
            EnemyType::Mosquito => 10,
        }
    }
}

/// One live enemy: its centre position in micro-pixels, its kind, which way
/// it flies, and how long it has been alive in milliseconds (which phases
/// its bobbing).
#[derive(Clone, Copy, Debug, PartialEq, Eq, Structural)]
pub struct EnemyEntity {
    pub x: i64,
    pub y: i64,
    pub enemy_type: EnemyType,
    pub revert_direction: bool,
    pub timer_ms: u32,
}

impl EnemyEntity {
    /// An enemy is well formed when its centre is within the tracked
    /// coordinate range.
    pub open spec fn wf(self) -> bool {
        &&& -POS_LIMIT <= self.x <= POS_LIMIT
        &&& -POS_LIMIT <= self.y <= POS_LIMIT
    }

    /// The enemy's collision box.
    pub open spec fn spec_collision_box(self) -> Aabb {
        Aabb {
            cx: self.x,
            cy: self.y,
            hw: self.enemy_type.spec_half_width(),
            hh: self.enemy_type.spec_half_height(),
        }
    }

    /// Build the enemy's collision box.
    pub fn collision_box(&self) -> (r: Aabb)
        requires
            self.wf(),
        ensures
            r == self.spec_collision_box(),
            r.wf(),
    {
        let hh: i64 = match self.enemy_type {
            EnemyType::Fly => 16 * PX,
            EnemyType::Mosquito => 10 * PX,
        };
        Aabb { cx: self.x, cy: self.y, hw: 16 * PX, hh }
    }
}

/// The player's centre position, in micro-pixels, kept inside the arena
/// rectangle.
#[derive(Clone, Copy, Debug, PartialEq, Eq, Structural)]
pub struct PlayerState {
    pub x: i64,
    pub y: i64,
}

impl PlayerState {
    /// The player invariant: the centre stays inside the arena rectangle.
    pub open spec fn wf(self) -> bool {
        &&& -ARENA_BOUND_X <= self.x <= ARENA_BOUND_X
        &&& -ARENA_BOUND_Y <= self.y <= ARENA_BOUND_Y
    }

    /// A player standing at the arena centre.
    pub fn new() -> (r: PlayerState)
        ensures
            r.wf(),
            r == (PlayerState { x: 0i64, y: 0i64 }),
    {
        PlayerState { x: 0, y: 0 }
    }

    /// The player's catch box.
    pub open spec fn spec_collision_box(self) -> Aabb {
        Aabb { cx: self.x, cy: self.y, hw: PLAYER_HALF, hh: PLAYER_HALF }
    }

    /// Build the player's catch box.
    pub fn collision_box(&self) -> (r: Aabb)
        requires
            self.wf(),
        ensures
            r == self.spec_collision_box(),
            r.wf(),
    {
        Aabb { cx: self.x, cy: self.y, hw: PLAYER_HALF, hh: PLAYER_HALF }
    }
}

/// Clamp a coordinate to an interval.
pub open spec fn spec_clamp(v: int, lo: int, hi: int) -> int {
    if v < lo {
        lo
    } else if v > hi {
        hi
    } else {
        v
    }
}

/// Where one tick of walking takes the player: each axis advances by the
/// controller deflection times the walking (or, when boosting, sprinting)
/// speed times the elapsed time, and is then clamped to the arena rectangle.
pub open spec fn spec_move_player(p: PlayerState, ctrl: PlayerControllerState, dt_ms: u32) -> PlayerState {
    let speed = if ctrl.boost {
        SPRINT_SPEED
    } else {
        MOVE_SPEED
    };
    PlayerState {
        x: spec_clamp(p.x + ctrl.x * speed * dt_ms, -ARENA_BOUND_X as int, ARENA_BOUND_X as int) as i64,
        y: spec_clamp(p.y + ctrl.y * speed * dt_ms, -ARENA_BOUND_Y as int, ARENA_BOUND_Y as int) as i64,
    }
}

/// Advance the player by one tick of walking.
pub fn move_player(p: &mut PlayerState, ctrl: &PlayerControllerState, dt_ms: u32)
    requires
        old(p).wf(),
        ctrl.wf(),
    ensures
        final(p).wf(),
        *final(p) == spec_move_player(*old(p), *ctrl, dt_ms),
{
    let speed: i64 = if ctrl.boost {
        SPRINT_SPEED
    } else {
        MOVE_SPEED
    };
    proof {
        assert((ctrl.x as int) * speed * (dt_ms as int) <= 1000 * 256 * 0x1_0000_0000int
            && (ctrl.x as int) * speed * (dt_ms as int) >= -(1000 * 256 * 0x1_0000_0000int)
            && (ctrl.y as int) * speed * (dt_ms as int) <= 1000 * 256 * 0x1_0000_0000int
            && (ctrl.y as int) * speed * (dt_ms as int) >= -(1000 * 256 * 0x1_0000_0000int))
            by (nonlinear_arith)
            requires
                -1000 <= ctrl.x <= 1000,
                -1000 <= ctrl.y <= 1000,
                0 < speed <= 256,
                dt_ms <= 0x1_0000_0000u64,
        ;
    }
    let dx: i64 = (ctrl.x as i64) * speed * (dt_ms as i64);
    let dy: i64 = (ctrl.y as i64) * speed * (dt_ms as i64);
    let nx: i64 = p.x + dx;
    let ny: i64 = p.y + dy;
    p.x = if nx < -ARENA_BOUND_X {
        -ARENA_BOUND_X
    } else if nx > ARENA_BOUND_X {
        ARENA_BOUND_X
    } else {
        nx
    };
    p.y = if ny < -ARENA_BOUND_Y {
        -ARENA_BOUND_Y
    } else if ny > ARENA_BOUND_Y {
        ARENA_BOUND_Y
    } else {
        ny
    };
}

/// Where the web hangs for a given player position: glued to the player's
/// x and a fixed height above it.
pub open spec fn spec_web_box(p: PlayerState) -> Aabb {
    Aabb { cx: p.x, cy: (p.y + WEB_OFFSET_Y) as i64, hw: WEB_HALF_W, hh: WEB_HALF_H }
}

/// Build the web's collision box, pinned to the player.
pub fn move_web(p: &PlayerState) -> (r: Aabb)
    requires
        p.wf(),
    ensures
        r == spec_web_box(*p),
        r.wf(),
{
    Aabb { cx: p.x, cy: p.y + WEB_OFFSET_Y, hw: WEB_HALF_W, hh: WEB_HALF_H }
}

/// The oscillation factor for the enemy at index `i`, in thousandths; a
/// missing entry means level flight. The host samples these from the bobbing
/// waveform, which is presentation, not rules.
pub open spec fn spec_osc_at(oscs: Seq<i16>, i: int) -> i16 {
    if 0 <= i < oscs.len() {
        oscs[i]
    } else {
        0
    }
}

/// Where one tick takes an enemy. Both kinds advance horizontally by their
/// speed, flipped when the spawn chose the reverse direction; a fly also
/// climbs or dives by its horizontal step scaled by the oscillation factor.
/// Positions saturate at the tracked coordinate range; the alive timer
/// saturates at its own top.
pub open spec fn spec_move_enemy(e: EnemyEntity, dt_ms: u32, osc: i16) -> EnemyEntity {
    let step = e.enemy_type.spec_speed() * 1000 * dt_ms;
    let dx = if e.revert_direction {
        -step
    } else {
        step
    };
    let dy = if e.enemy_type == EnemyType::Fly {
        e.enemy_type.spec_speed() * dt_ms * osc
    } else {
        0
    };
    EnemyEntity {
        x: spec_clamp(e.x + dx, -POS_LIMIT as int, POS_LIMIT as int) as i64,
        y: spec_clamp(e.y + dy, -POS_LIMIT as int, POS_LIMIT as int) as i64,
        timer_ms: if e.timer_ms + dt_ms > u32::MAX {
            u32::MAX
        } else {
            (e.timer_ms + dt_ms) as u32
        },
        ..e
    }
}

/// Advance every enemy by one tick. The oscillation factors are matched to
/// the enemies by index; enemies past the end of the list fly level.
pub fn move_enemies(enemies: &Vec<EnemyEntity>, dt_ms: u32, oscs: &Vec<i16>) -> (r: Vec<
    EnemyEntity,
>)
    requires
        forall|i: int| 0 <= i < enemies@.len() ==> enemies@[i].wf(),
        forall|i: int| 0 <= i < oscs@.len() ==> -1000 <= #[trigger] oscs@[i] <= 1000,
    ensures
        r@.len() == enemies@.len(),
        forall|i: int| 0 <= i < enemies@.len() ==> r@[i] == spec_move_enemy(
            enemies@[i],
            dt_ms,
            spec_osc_at(oscs@, i),
        ),
        forall|i: int| 0 <= i < r@.len() ==> r@[i].wf(),
{
    let mut out: Vec<EnemyEntity> = Vec::new();
    let mut i: usize = 0;
    while i < enemies.len()
        invariant
            0 <= i <= enemies@.len(),
            out@.len() == i,
            forall|j: int| 0 <= j < enemies@.len() ==> enemies@[j].wf(),
            forall|j: int| 0 <= j < oscs@.len() ==> -1000 <= #[trigger] oscs@[j] <= 1000,
            forall|j: int| 0 <= j < i ==> out@[j] == spec_move_enemy(
                enemies@[j],
                dt_ms,
                spec_osc_at(oscs@, j),
            ),
            forall|j: int| 0 <= j < i ==> out@[j].wf(),
        decreases enemies@.len() - i,
    {
        let e = enemies[i];
        let osc: i16 = if i < oscs.len() {
            oscs[i]
        } else {
            0
        };
        let speed: i64 = match e.enemy_type {
            EnemyType::Fly => 64,
            EnemyType::Mosquito => 256,
        };
        let step: i64 = speed * 1000 * (dt_ms as i64);
        let dx: i64 = if e.revert_direction {
            -step
        } else {
            step
        };
        proof {
            assert(speed * (dt_ms as int) * (osc as int) <= 256 * 0x1_0000_0000int * 1000
                && speed * (dt_ms as int) * (osc as int) >= -(256 * 0x1_0000_0000int * 1000))
                by (nonlinear_arith)
                requires
                    0 < speed <= 256,
                    dt_ms <= 0x1_0000_0000u64,
                    -1000 <= osc <= 1000,
            ;
        }
        let dy: i64 = if matches!(e.enemy_type, EnemyType::Fly) {
            speed * (dt_ms as i64) * (osc as i64)
        } else {
            0
        };
        let nx: i64 = e.x + dx;
        let ny: i64 = e.y + dy;
        let timer_ms: u32 = if e.timer_ms > u32::MAX - dt_ms {
            u32::MAX
        } else {
            e.timer_ms + dt_ms
        };
        let moved = EnemyEntity {
            x: if nx < -POS_LIMIT {
                -POS_LIMIT
            } else if nx > POS_LIMIT {
                POS_LIMIT
            } else {
                nx
            },
            y: if ny < -POS_LIMIT {
                -POS_LIMIT
            } else if ny > POS_LIMIT {
                POS_LIMIT
            } else {
                ny
            },
            enemy_type: e.enemy_type,
            revert_direction: e.revert_direction,
            timer_ms,
        };
        out.push(moved);
        i = i + 1;
    }
    out
}

/// Sprite-strip bounds for a looping animation.
#[derive(Clone, Copy, Debug, PartialEq, Eq, Structural)]
pub struct AnimationIndices {
    pub first: usize,
    pub last: usize,
}

/// A repeating timer that paces a sprite animation.
#[derive(Clone, Copy, Debug, PartialEq, Eq, Structural)]
pub struct AnimationTimer {
    pub timer: RepeatTimer,
}

/// Advance a looping sprite animation by one tick. Only an active session
/// animates; when the pacing timer fires, the sprite index steps forward and
/// wraps from the last frame back to the first.
pub fn animate_sprite(
    sprite_index: usize,
    indices: &AnimationIndices,
    timer: &mut AnimationTimer,
    game_state: GameState,
    dt_ms: u32,
) -> (r: usize)
    requires
        old(timer).timer.wf(),
        indices.first <= sprite_index <= indices.last,
    ensures
        final(timer).timer.wf(),
        final(timer).timer.interval_ms == old(timer).timer.interval_ms,
        indices.first <= r <= indices.last,
        game_state != GameState::Active ==> r == sprite_index && *final(timer) == *old(timer),
        game_state == GameState::Active ==> {
            let fired = spec_acc_plus(old(timer).timer.acc_ms, dt_ms) >= old(
                timer,
            ).timer.interval_ms;
            r == if !fired {
                sprite_index as int
            } else if sprite_index == indices.last {
                indices.first as int
            } else {
                sprite_index + 1
            }
        },
{
    if game_state == GameState::Active {
        let fired = timer.timer.tick(dt_ms);
        if fired {
            if sprite_index == indices.last {
                indices.first
            } else {
                sprite_index + 1
            }
        } else {
            sprite_index
        }
    } else {
        sprite_index
    }
}

/// The arena the host runs the game in, in pixels. The spawn rules keep a
/// sprite-sized margin inside these bounds.
#[derive(Clone, Copy, Debug, PartialEq, Eq, Structural)]
pub struct Arena {
    pub width_px: u32,
    pub height_px: u32,
}

impl Arena {
    /// The arena invariant: room for the sprite margins, and small enough
    /// that every spawn position stays well inside the coordinate range.
    pub open spec fn wf(self) -> bool {
        &&& 64 <= self.width_px <= 100_000
        &&& 64 <= self.height_px <= 100_000
    }
}

/// The random draws one spawn consumes: the kind, the flight direction and
/// the vertical position (in thousandths of the available height).
#[derive(Clone, Copy, Debug, PartialEq, Eq, Structural)]
pub struct SpawnDraws {
    pub fly: bool,
    pub revert: bool,
    pub y_frac: u16,
}

impl SpawnDraws {
    /// The vertical draw is a fraction: always below one.
    pub open spec fn wf(self) -> bool {
        self.y_frac < 1000
    }
}

/// Where a spawn with the given draws places the new enemy. The vertical
/// position is uniform over the arena height minus the sprite margin; the
/// horizontal position is pinned to the left edge, or to the right edge when
/// the direction is reversed, one sprite width in.
pub open spec fn spec_spawn_enemy(arena: Arena, draws: SpawnDraws) -> EnemyEntity {
    let kind = if draws.fly {
        EnemyType::Fly
    } else {
        EnemyType::Mosquito
    };
    let usable_h = arena.height_px - kind.spec_sprite_height();
    let usable_w = arena.width_px - 16;
    let y = usable_h * (draws.y_frac - 500) * 1000;
    let half_w = usable_w * 500_000;
    let x = if draws.revert {
        half_w - 16 * PX
    } else {
        -half_w + 16 * PX
    };
    EnemyEntity {
        x: x as i64,
        y: y as i64,
        enemy_type: kind,
        revert_direction: draws.revert,
        timer_ms: 0,
    }
}

/// Place a freshly spawned enemy from one set of draws.
pub fn spawn_enemy(arena: &Arena, draws: &SpawnDraws) -> (e: EnemyEntity)
    requires
        arena.wf(),
        draws.wf(),
    ensures
        e == spec_spawn_enemy(*arena, *draws),
        e.wf(),
        e.timer_ms == 0,
{
    let kind = if draws.fly {
        EnemyType::Fly
    } else {
        EnemyType::Mosquito
    };
    let sprite_h: i64 = match kind {
        EnemyType::Fly => 16,
        EnemyType::Mosquito => 10,
    };
    let usable_h: i64 = arena.height_px as i64 - sprite_h;
    let usable_w: i64 = arena.width_px as i64 - 16;
    proof {
        assert(usable_h * ((draws.y_frac as int) - 500) * 1000 <= 100_000 * 500 * 1000int
            && usable_h * ((draws.y_frac as int) - 500) * 1000 >= -(100_000 * 500 * 1000int))
            by (nonlinear_arith)
            requires
                0 <= usable_h <= 100_000,
                0 <= draws.y_frac < 1000,
        ;
    }
    let y: i64 = usable_h * (draws.y_frac as i64 - 500) * 1000;
    let half_w: i64 = usable_w * 500_000;
    let x: i64 = if draws.revert {
        half_w - 16 * PX
    } else {
        -half_w + 16 * PX
    };
    EnemyEntity { x, y, enemy_type: kind, revert_direction: draws.revert, timer_ms: 0 }
}

/// Relies on `rand::random::<bool>`: a coin flip from the thread-local
/// generator. Nothing is promised of the value.
#[verifier::external_body]
fn random_bool() -> bool {
    rand::random::<bool>()
}

/// Relies on `rand::Rng::gen_range` on the range `0..n`: the range is
/// non-empty, so the call does not panic and the draw lies below `n`.
#[verifier::external_body]
fn random_below(n: u16) -> (r: u16)
    requires
        n > 0,
    ensures
        r < n,
{
    rand::thread_rng().gen_range(0..n)
}

/// Draw the randomness one spawn consumes: a uniform kind, a uniform
/// direction and a uniform vertical fraction.
pub fn draw_spawn() -> (d: SpawnDraws)
    ensures
        d.wf(),
{
    SpawnDraws { fly: random_bool(), revert: random_bool(), y_frac: random_below(1000) }
}

/// Run the spawn timer for one tick and, when it fires, place one new enemy
/// from the given draws. Only an active session spawns; in every other phase
/// the timer is left untouched. Even a delta spanning several intervals
/// yields at most one enemy; the surplus time carries into later ticks.
pub fn spawn_enemies(
    spawner: &mut RepeatTimer,
    arena: &Arena,
    game_state: GameState,
    dt_ms: u32,
    draws: &SpawnDraws,
) -> (r: Option<EnemyEntity>)
    requires
        old(spawner).wf(),
        arena.wf(),
        draws.wf(),
    ensures
        final(spawner).wf(),
        final(spawner).interval_ms == old(spawner).interval_ms,
        game_state != GameState::Active ==> *final(spawner) == *old(spawner) && r is None,
        r matches Some(e) ==> e.wf(),
        game_state == GameState::Active ==> {
            let fired = spec_acc_plus(old(spawner).acc_ms, dt_ms) >= old(spawner).interval_ms;
            &&& final(spawner).acc_ms == if fired {
                spec_acc_plus(old(spawner).acc_ms, dt_ms) - old(spawner).interval_ms
            } else {
                spec_acc_plus(old(spawner).acc_ms, dt_ms) as int
            }
            &&& r == if fired {
                Some(spec_spawn_enemy(*arena, *draws))
            } else {
                None::<EnemyEntity>
            }
        },
{
    if game_state == GameState::Active {
        let fired = spawner.tick(dt_ms);
        if fired {
            Some(spawn_enemy(arena, draws))
        } else {
            None
        }
    } else {
        None
    }
}

} // verus!
