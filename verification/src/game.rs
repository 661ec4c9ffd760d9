//! The frame driver: the whole kernel behind one per-tick entry point. A
//! host calls [`Simulation::tick`] once per frame with the elapsed time and
//! an input sample; the driver folds the input into the controller, runs the
//! spawn timer, moves every entity, resolves collisions, settles the ledger
//! and evaluates the state machine, in that fixed order.

use vstd::prelude::*;
use crate::SPAWN_TIMER_MS;
use crate::collision::{
    CollisionOutcome, apply_outcomes, remove_caught, resolve, spec_apply_outcomes, spec_resolve,
    spec_survivors, lemma_survivors_membership,
};
use crate::controller::{
    GamepadAxisEvent, GamepadButton, GamepadButtonEvent, KeyEvent, PlayerControllerState,
    player_controller, spec_player_controller,
};
use crate::entities::{
    Arena, EnemyEntity, PlayerState, SpawnDraws, draw_spawn, move_enemies, move_player, move_web,
    spawn_enemies, spec_move_enemy, spec_move_player, spec_osc_at, spec_spawn_enemy, spec_web_box,
};
use crate::geom::Aabb;
use crate::ledger::{GameResources, burn_energy, spec_burn_rate, spec_energy_after_burn};
use crate::state::{GameEvent, GameState, spec_step, step};
use crate::timer::{RepeatTimer, spec_acc_plus};

verus! {

/// Whether any gamepad event in the batch pressed the start button.
pub open spec fn spec_start_pressed(evs: Seq<GamepadButtonEvent>) -> bool {
    exists|i: int|
        0 <= i < evs.len() && (#[trigger] evs[i]).button == GamepadButton::Start && evs[i].value
            > 0
}

/// Scan a batch of gamepad events for a press of the start button.
pub fn start_button_pressed(evs: &Vec<GamepadButtonEvent>) -> (r: bool)
    ensures
        r == spec_start_pressed(evs@),
{
    let mut i: usize = 0;
    while i < evs.len()
        invariant
            0 <= i <= evs@.len(),
            forall|j: int|
                0 <= j < i ==> !((#[trigger] evs@[j]).button == GamepadButton::Start && evs@[j].value
                    > 0),
        decreases evs@.len() - i,
    {
        let ev = evs[i];
        if ev.button == GamepadButton::Start && ev.value > 0 {
            proof {
                assert((evs@[i as int]).button == GamepadButton::Start && evs@[i as int].value > 0);
            }
            return true;
        }
        i = i + 1;
    }
    false
}

/// The pause toggle: when the pause key or the gamepad start button was
/// pressed this tick, an active session suspends and a paused one resumes;
/// every other phase ignores the press.
pub fn toggle_pause(
    game_state: GameState,
    escape_pressed: bool,
    buttons: &Vec<GamepadButtonEvent>,
) -> (r: GameState)
    ensures
        r == if escape_pressed || spec_start_pressed(buttons@) {
            spec_step(game_state, GameEvent::PauseToggle)
        } else {
            game_state
        },
{
    if escape_pressed || start_button_pressed(buttons) {
        step(game_state, GameEvent::PauseToggle)
    } else {
        game_state
    }
}

/// The confirm input: when the confirm key or the gamepad start button was
/// pressed this tick and the session sits in the start menu, the session
/// moves to `Init` with a zero score and a full energy bar; in every other
/// phase the ledger and state are untouched.
pub fn toggle_start(
    game_state: GameState,
    resources: &mut GameResources,
    space_pressed: bool,
    buttons: &Vec<GamepadButtonEvent>,
) -> (r: GameState)
    ensures
        r == if (space_pressed || spec_start_pressed(buttons@)) && game_state
            == GameState::StartMenu {
            GameState::Init
        } else {
            game_state
        },
        r == if space_pressed || spec_start_pressed(buttons@) {
            spec_step(game_state, GameEvent::Confirm)
        } else {
            game_state
        },
        if (space_pressed || spec_start_pressed(buttons@)) && game_state == GameState::StartMenu {
            *final(resources) == (GameResources { energy: crate::ENERGY_FULL, score: 0u32 })
        } else {
            *final(resources) == *old(resources)
        },
{
    if space_pressed || start_button_pressed(buttons) {
        if game_state == GameState::StartMenu {
            resources.reset();
            return GameState::Init;
        }
    }
    game_state
}

/// The collision boxes of a run of enemies, in the same order.
pub open spec fn spec_enemy_boxes(es: Seq<EnemyEntity>) -> Seq<Aabb> {
    Seq::new(es.len(), |i: int| es[i].spec_collision_box())
}

/// Build the collision boxes of the live enemies.
fn enemy_boxes(es: &Vec<EnemyEntity>) -> (r: Vec<Aabb>)
    requires
        forall|i: int| 0 <= i < es@.len() ==> (#[trigger] es@[i]).wf(),
    ensures
        r@ == spec_enemy_boxes(es@),
        forall|i: int| 0 <= i < r@.len() ==> (#[trigger] r@[i]).wf(),
{
    let mut out: Vec<Aabb> = Vec::new();
    let mut i: usize = 0;
    while i < es.len()
        invariant
            0 <= i <= es@.len(),
            out@.len() == i,
            forall|j: int| 0 <= j < es@.len() ==> (#[trigger] es@[j]).wf(),
            forall|j: int| 0 <= j < i ==> (#[trigger] out@[j]) == es@[j].spec_collision_box(),
            forall|j: int| 0 <= j < i ==> (#[trigger] out@[j]).wf(),
        decreases es@.len() - i,
    {
        let e = es[i];
        out.push(e.collision_box());
        i = i + 1;
    }
    proof {
        assert(out@ =~= spec_enemy_boxes(es@));
    }
    out
}

/// Sweep every live enemy against the player's catch box and the web, apply
/// the outcomes to the ledger, and despawn the caught enemies. The returned
/// pair carries the outcomes in processing order and whether the player died.
pub fn detect_intersection_player(
    player: &PlayerState,
    enemies: &mut Vec<EnemyEntity>,
    resources: &mut GameResources,
) -> (r: (Vec<CollisionOutcome>, bool))
    requires
        player.wf(),
        forall|i: int| 0 <= i < old(enemies)@.len() ==> (#[trigger] old(enemies)@[i]).wf(),
        old(resources).wf(),
    ensures
        r.0@ == spec_resolve(
            player.spec_collision_box(),
            spec_web_box(*player),
            spec_enemy_boxes(old(enemies)@),
        ),
        *final(resources) == spec_apply_outcomes(*old(resources), r.0@).0,
        r.1 == spec_apply_outcomes(*old(resources), r.0@).1,
        final(enemies)@ == spec_survivors(old(enemies)@, r.0@),
        final(resources).wf(),
        forall|i: int| 0 <= i < final(enemies)@.len() ==> (#[trigger] final(enemies)@[i]).wf(),
{
    let player_box = player.collision_box();
    let web_box = move_web(player);
    let boxes = enemy_boxes(enemies);
    let outcomes = resolve(&player_box, &web_box, &boxes);
    let died = apply_outcomes(resources, &outcomes);
    let survivors = remove_caught(enemies, &outcomes);
    proof {
        lemma_survivors_membership(enemies@, outcomes@, 0);
        assert forall|i: int|
            0 <= i < spec_survivors(enemies@, outcomes@).len() implies (#[trigger] spec_survivors(
            enemies@,
            outcomes@,
        )[i]).wf() by {
            let e = spec_survivors(enemies@, outcomes@)[i];
            assert(enemies@.contains(e));
            let j = choose|j: int| 0 <= j < enemies@.len() && enemies@[j] == e;
            assert(enemies@[j].wf());
        }
    }
    *enemies = survivors;
    (outcomes, died)
}

/// One tick's input sample, as the host hands it over: the raw event
/// batches for the controller, plus the two edge-triggered menu inputs
/// (pause and confirm), already debounced to one press per tick.
pub struct InputSample {
    pub sticks: Vec<GamepadAxisEvent>,
    pub buttons: Vec<GamepadButtonEvent>,
    pub keys: Vec<KeyEvent>,
    pub escape_pressed: bool,
    pub space_pressed: bool,
}

/// The mathematical shadow of an input sample.
#[verifier::ext_equal]
pub ghost struct InputView {
    pub sticks: Seq<GamepadAxisEvent>,
    pub buttons: Seq<GamepadButtonEvent>,
    pub keys: Seq<KeyEvent>,
    pub escape_pressed: bool,
    pub space_pressed: bool,
}

impl View for InputSample {
    type V = InputView;

    open spec fn view(&self) -> InputView {
        InputView {
            sticks: self.sticks@,
            buttons: self.buttons@,
            keys: self.keys@,
            escape_pressed: self.escape_pressed,
            space_pressed: self.space_pressed,
        }
    }
}

impl InputSample {
    /// Every stick sample is within its physical range.
    pub open spec fn wf(self) -> bool {
        forall|i: int| 0 <= i < self.sticks@.len() ==> (#[trigger] self.sticks@[i]).wf()
    }

    /// A tick with no input at all.
    pub fn idle() -> (r: InputSample)
        ensures
            r.wf(),
            r@.sticks.len() == 0,
            r@.buttons.len() == 0,
            r@.keys.len() == 0,
            !r@.escape_pressed,
            !r@.space_pressed,
    {
        InputSample {
            sticks: Vec::new(),
            buttons: Vec::new(),
            keys: Vec::new(),
            escape_pressed: false,
            space_pressed: false,
        }
    }
}

/// What one tick hands back to the host: whether an enemy spawned, and the
/// collision outcomes in processing order, so the host can despawn the
/// caught enemies' visuals and play the right sounds.
pub struct TickReport {
    pub spawned: bool,
    pub outcomes: Vec<CollisionOutcome>,
}

/// The whole simulation: the state machine, the ledger, the controller, the
/// spawn timer, the arena, the player and the live enemies.
pub struct Simulation {
    pub game_state: GameState,
    pub resources: GameResources,
    pub controller: PlayerControllerState,
    pub spawner: RepeatTimer,
    pub arena: Arena,
    pub player: PlayerState,
    pub player_alive: bool,
    pub enemies: Vec<EnemyEntity>,
}

/// The mathematical shadow of the simulation.
#[verifier::ext_equal]
pub ghost struct SimView {
    pub game_state: GameState,
    pub resources: GameResources,
    pub controller: PlayerControllerState,
    pub spawner: RepeatTimer,
    pub arena: Arena,
    pub player: PlayerState,
    pub player_alive: bool,
    pub enemies: Seq<EnemyEntity>,
}

impl View for Simulation {
    type V = SimView;

    open spec fn view(&self) -> SimView {
        SimView {
            game_state: self.game_state,
            resources: self.resources,
            controller: self.controller,
            spawner: self.spawner,
            arena: self.arena,
            player: self.player,
            player_alive: self.player_alive,
            enemies: self.enemies@,
        }
    }
}

/// One whole tick, on the mathematical shadow. The input is folded into the
/// controller first, in every phase; then the phase decides:
/// - the start menu waits for the confirm input, which resets the ledger and
///   enters `Init`;
/// - `Init` is the one-shot bootstrap: the player returns to the centre and
///   the session is `Active` within the same tick;
/// - an active tick runs the spawn timer, moves everything, sweeps the
///   collisions, settles the ledger (a death stops all further ledger
///   updates for the tick, otherwise energy drains by the controller mode),
///   and then evaluates the transitions — death or an empty bar win over a
///   pause press;
/// - a paused tick waits for the pause input to resume;
/// - the game-over tick despawns everything and returns to the menu.
pub open spec fn spec_tick(
    v: SimView,
    dt_ms: u32,
    input: InputView,
    draws: SpawnDraws,
    oscs: Seq<i16>,
) -> (SimView, bool, Seq<CollisionOutcome>) {
    let ctrl = spec_player_controller(v.controller, input.sticks, input.buttons, input.keys);
    let start = spec_start_pressed(input.buttons);
    let pause = input.escape_pressed || start;
    let confirm = input.space_pressed || start;
    match v.game_state {
        GameState::StartMenu => {
            if confirm {
                (
                    SimView {
                        game_state: GameState::Init,
                        controller: ctrl,
                        resources: GameResources { energy: crate::ENERGY_FULL, score: 0u32 },
                        ..v
                    },
                    false,
                    Seq::empty(),
                )
            } else {
                (SimView { controller: ctrl, ..v }, false, Seq::empty())
            }
        },
        GameState::Init => {
            (
                SimView {
                    game_state: GameState::Active,
                    controller: ctrl,
                    player: PlayerState { x: 0i64, y: 0i64 },
                    player_alive: true,
                    enemies: Seq::empty(),
                    ..v
                },
                false,
                Seq::empty(),
            )
        },
        GameState::Active => {
            let fired = spec_acc_plus(v.spawner.acc_ms, dt_ms) >= v.spawner.interval_ms;
            let spawner2 = RepeatTimer {
                interval_ms: v.spawner.interval_ms,
                acc_ms: (if fired {
                    spec_acc_plus(v.spawner.acc_ms, dt_ms) - v.spawner.interval_ms
                } else {
                    spec_acc_plus(v.spawner.acc_ms, dt_ms) as int
                }) as u64,
            };
            let es1 = if fired {
                v.enemies.push(spec_spawn_enemy(v.arena, draws))
            } else {
                v.enemies
            };
            let player2 = spec_move_player(v.player, ctrl, dt_ms);
            let es2 = Seq::new(es1.len(), |i: int| spec_move_enemy(es1[i], dt_ms, spec_osc_at(oscs, i)));
            let outcomes = spec_resolve(
                player2.spec_collision_box(),
                spec_web_box(player2),
                spec_enemy_boxes(es2),
            );
            let applied = spec_apply_outcomes(v.resources, outcomes);
            let died = applied.1;
            let res2 = applied.0;
            let res3 = if died {
                res2
            } else {
                GameResources {
                    energy: spec_energy_after_burn(
                        res2.energy,
                        spec_burn_rate(ctrl.x != 0 || ctrl.y != 0, ctrl.boost),
                        dt_ms,
                    ),
                    ..res2
                }
            };
            let exhausted = !died && res3.energy == 0;
            let es3 = spec_survivors(es2, outcomes);
            if died || exhausted {
                (
                    SimView {
                        game_state: GameState::GameOver,
                        controller: ctrl,
                        spawner: spawner2,
                        resources: res3,
                        player: player2,
                        player_alive: false,
                        enemies: Seq::empty(),
                        ..v
                    },
                    fired,
                    outcomes,
                )
            } else if pause {
                (
                    SimView {
                        game_state: GameState::Paused,
                        controller: ctrl,
                        spawner: spawner2,
                        resources: res3,
                        player: player2,
                        enemies: es3,
                        ..v
                    },
                    fired,
                    outcomes,
                )
            } else {
                (
                    SimView {
                        controller: ctrl,
                        spawner: spawner2,
                        resources: res3,
                        player: player2,
                        enemies: es3,
                        ..v
                    },
                    fired,
                    outcomes,
                )
            }
        },
        GameState::Paused => {
            if pause {
                (
                    SimView { game_state: GameState::Active, controller: ctrl, ..v },
                    false,
                    Seq::empty(),
                )
            } else {
                (SimView { controller: ctrl, ..v }, false, Seq::empty())
            }
        },
        GameState::GameOver => {
            (
                SimView {
                    game_state: GameState::StartMenu,
                    controller: ctrl,
                    player_alive: false,
                    enemies: Seq::empty(),
                    ..v
                },
                false,
                Seq::empty(),
            )
        },
    }
}

impl Simulation {
    /// The simulation invariant: every part is well formed, enemies live
    /// only during play (active or paused), and during play the player is
    /// alive.
    pub open spec fn wf(self) -> bool {
        &&& self.resources.wf()
        &&& self.controller.wf()
        &&& self.spawner.wf()
        &&& self.arena.wf()
        &&& self.player.wf()
        &&& forall|i: int| 0 <= i < self.enemies@.len() ==> (#[trigger] self.enemies@[i]).wf()
        &&& ((self.game_state == GameState::StartMenu || self.game_state == GameState::Init
            || self.game_state == GameState::GameOver) ==> self.enemies@.len() == 0)
        &&& ((self.game_state == GameState::Active || self.game_state == GameState::Paused)
            ==> self.player_alive)
    }

    /// A fresh session in the given arena, with a custom spawn interval.
    pub fn with_spawn_interval(arena: Arena, spawn_interval_ms: u32) -> (r: Simulation)
        requires
            arena.wf(),
            spawn_interval_ms > 0,
        ensures
            r.wf(),
            r.game_state == GameState::StartMenu,
            r.resources == (GameResources { energy: crate::ENERGY_FULL, score: 0u32 }),
            r.controller == (PlayerControllerState { x: 0i16, y: 0i16, boost: false }),
            r.spawner == (RepeatTimer { interval_ms: spawn_interval_ms, acc_ms: 0u64 }),
            r.arena == arena,
            r.player == (PlayerState { x: 0i64, y: 0i64 }),
            !r.player_alive,
            r.enemies@.len() == 0,
    {
        Simulation {
            game_state: GameState::StartMenu,
            resources: GameResources::new(),
            controller: PlayerControllerState::new(),
            spawner: RepeatTimer::new(spawn_interval_ms),
            arena,
            player: PlayerState::new(),
            player_alive: false,
            enemies: Vec::new(),
        }
    }

    /// A fresh session in the given arena, with the standard spawn interval.
    pub fn new(arena: Arena) -> (r: Simulation)
        requires
            arena.wf(),
        ensures
            r.wf(),
            r.game_state == GameState::StartMenu,
            r.resources == (GameResources { energy: crate::ENERGY_FULL, score: 0u32 }),
            r.controller == (PlayerControllerState { x: 0i16, y: 0i16, boost: false }),
            r.spawner == (RepeatTimer { interval_ms: SPAWN_TIMER_MS, acc_ms: 0u64 }),
            r.arena == arena,
            r.player == (PlayerState { x: 0i64, y: 0i64 }),
            !r.player_alive,
            r.enemies@.len() == 0,
    {
        Simulation::with_spawn_interval(arena, SPAWN_TIMER_MS)
    }

    /// The one-shot bootstrap after a confirmed start: the player returns to
    /// the arena centre, comes alive, no enemy is left over, and the session
    /// is active within the same tick.
    pub fn spawn_entities_on_init(&mut self)
        requires
            old(self).wf(),
            old(self).game_state == GameState::Init,
        ensures
            final(self).wf(),
            final(self)@ == (SimView {
                game_state: GameState::Active,
                player: PlayerState { x: 0i64, y: 0i64 },
                player_alive: true,
                enemies: Seq::empty(),
                ..old(self)@
            }),
    {
        self.player = PlayerState::new();
        self.player_alive = true;
        self.enemies.clear();
        self.game_state = step(GameState::Init, GameEvent::BootstrapComplete);
        proof {
            assert(self@ =~= (SimView {
                game_state: GameState::Active,
                player: PlayerState { x: 0i64, y: 0i64 },
                player_alive: true,
                enemies: Seq::empty(),
                ..old(self)@
            }));
        }
    }

    /// The cleanup tick after a game over: every live entity despawns and
    /// the session returns to the start menu.
    pub fn despawn_game_entities_on_game_over(&mut self)
        requires
            old(self).wf(),
            old(self).game_state == GameState::GameOver,
        ensures
            final(self).wf(),
            final(self)@ == (SimView {
                game_state: GameState::StartMenu,
                player_alive: false,
                enemies: Seq::empty(),
                ..old(self)@
            }),
    {
        self.enemies.clear();
        self.player_alive = false;
        self.game_state = step(GameState::GameOver, GameEvent::CleanupDone);
        proof {
            assert(self@ =~= (SimView {
                game_state: GameState::StartMenu,
                player_alive: false,
                enemies: Seq::empty(),
                ..old(self)@
            }));
        }
    }

    /// One tick of the simulation, with the spawn randomness handed in, so
    /// the whole step is a function of its arguments: the new state and the
    /// report are exactly what [`spec_tick`] says. The oscillation factors
    /// pace the flies' bobbing, matched to the enemies by index.
    pub fn tick(&mut self, dt_ms: u32, input: &InputSample, draws: &SpawnDraws, oscs: &Vec<i16>) -> (r:
        TickReport)
        requires
            old(self).wf(),
            input.wf(),
            draws.wf(),
            forall|i: int| 0 <= i < oscs@.len() ==> -1000 <= #[trigger] oscs@[i] <= 1000,
        ensures
            final(self).wf(),
            final(self)@ == spec_tick(old(self)@, dt_ms, input@, *draws, oscs@).0,
            r.spawned == spec_tick(old(self)@, dt_ms, input@, *draws, oscs@).1,
            r.outcomes@ == spec_tick(old(self)@, dt_ms, input@, *draws, oscs@).2,
    {
        let ghost v0 = old(self)@;
        player_controller(&mut self.controller, &input.sticks, &input.buttons, &input.keys);
        let pause = input.escape_pressed || start_button_pressed(&input.buttons);
        match self.game_state {
            GameState::StartMenu => {
                let next = toggle_start(
                    self.game_state,
                    &mut self.resources,
                    input.space_pressed,
                    &input.buttons,
                );
                self.game_state = next;
                proof {
                    assert(self@ =~= spec_tick(v0, dt_ms, input@, *draws, oscs@).0);
                }
                TickReport { spawned: false, outcomes: Vec::new() }
            },
            GameState::Init => {
                self.spawn_entities_on_init();
                proof {
                    assert(self@ =~= spec_tick(v0, dt_ms, input@, *draws, oscs@).0);
                }
                TickReport { spawned: false, outcomes: Vec::new() }
            },
            GameState::Active => {
                let spawned_enemy = spawn_enemies(
                    &mut self.spawner,
                    &self.arena,
                    GameState::Active,
                    dt_ms,
                    draws,
                );
                let spawned = match spawned_enemy {
                    Some(e) => {
                        self.enemies.push(e);
                        proof {
                            assert(forall|i: int|
                                0 <= i < self.enemies@.len() ==> (#[trigger] self.enemies@[i]).wf());
                        }
                        true
                    },
                    None => false,
                };
                let ghost es1 = self.enemies@;
                move_player(&mut self.player, &self.controller, dt_ms);
                let moved = move_enemies(&self.enemies, dt_ms, oscs);
                self.enemies = moved;
                proof {
                    assert(self.enemies@ =~= Seq::new(
                        es1.len(),
                        |i: int| spec_move_enemy(es1[i], dt_ms, spec_osc_at(oscs@, i)),
                    ));
                }
                let (outcomes, died) = detect_intersection_player(
                    &self.player,
                    &mut self.enemies,
                    &mut self.resources,
                );
                let exhausted = if died {
                    false
                } else {
                    let moving = self.controller.is_moving();
                    let boosting = self.controller.is_boosting();
                    burn_energy(&mut self.resources, GameState::Active, moving, boosting, dt_ms)
                };
                if died {
                    self.game_state = step(GameState::Active, GameEvent::PlayerDied);
                    self.enemies.clear();
                    self.player_alive = false;
                } else if exhausted {
                    self.game_state = step(GameState::Active, GameEvent::EnergyExhausted);
                    self.enemies.clear();
                    self.player_alive = false;
                } else if pause {
                    self.game_state = step(GameState::Active, GameEvent::PauseToggle);
                }
                proof {
                    assert(self@ =~= spec_tick(v0, dt_ms, input@, *draws, oscs@).0);
                }
                TickReport { spawned, outcomes }
            },
            GameState::Paused => {
                if pause {
                    self.game_state = step(GameState::Paused, GameEvent::PauseToggle);
                }
                proof {
                    assert(self@ =~= spec_tick(v0, dt_ms, input@, *draws, oscs@).0);
                }
                TickReport { spawned: false, outcomes: Vec::new() }
            },
            GameState::GameOver => {
                self.despawn_game_entities_on_game_over();
                proof {
                    assert(self@ =~= spec_tick(v0, dt_ms, input@, *draws, oscs@).0);
                }
                TickReport { spawned: false, outcomes: Vec::new() }
            },
        }
    }

    /// One tick with the spawn randomness drawn live from the process-wide
    /// generator: the step matches [`spec_tick`] for some well-formed draws.
    pub fn tick_live(&mut self, dt_ms: u32, input: &InputSample, oscs: &Vec<i16>) -> (r: TickReport)
        requires
            old(self).wf(),
            input.wf(),
            forall|i: int| 0 <= i < oscs@.len() ==> -1000 <= #[trigger] oscs@[i] <= 1000,
        ensures
            final(self).wf(),
            exists|d: SpawnDraws|
                #![auto]
                d.wf() && final(self)@ == spec_tick(old(self)@, dt_ms, input@, d, oscs@).0
                    && r.spawned == spec_tick(old(self)@, dt_ms, input@, d, oscs@).1 && r.outcomes@
                    == spec_tick(old(self)@, dt_ms, input@, d, oscs@).2,
    {
        let draws = draw_spawn();
        let r = self.tick(dt_ms, input, &draws, oscs);
        proof {
            assert(draws.wf() && self@ == spec_tick(old(self)@, dt_ms, input@, draws, oscs@).0
                && r.spawned == spec_tick(old(self)@, dt_ms, input@, draws, oscs@).1 && r.outcomes@
                == spec_tick(old(self)@, dt_ms, input@, draws, oscs@).2);
        }
        r
    }
}


} // verus!
