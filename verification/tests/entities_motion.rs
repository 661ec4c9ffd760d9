use spiderweb::controller::{
    ControlKey, GamepadAxis, GamepadAxisEvent, GamepadButton, GamepadButtonEvent, KeyEvent,
    PlayerControllerState, player_controller,
};
use spiderweb::entities::{
    AnimationIndices, AnimationTimer, Arena, EnemyEntity, EnemyType, PlayerState, SpawnDraws,
    animate_sprite, draw_spawn, move_enemies, move_player, move_web, spawn_enemy,
};
use spiderweb::state::GameState;
use spiderweb::timer::RepeatTimer;

const PX: i64 = 1_000_000;

#[test]
fn key_presses_set_axes_and_releases_clear_them() {
    let mut c = PlayerControllerState::new();
    c.move_player(ControlKey::Up);
    assert_eq!(c.get_state(), (0, 1000));
    c.move_player(ControlKey::Left);
    assert_eq!(c.get_state(), (-1000, 1000));
    assert!(c.is_moving());
    c.release_move_player(ControlKey::Up);
    c.release_move_player(ControlKey::Left);
    assert_eq!(c.get_state(), (0, 0));
    assert!(!c.is_moving());
    c.move_player(ControlKey::Boost);
    assert!(c.is_boosting());
    c.release_move_player(ControlKey::Boost);
    assert!(!c.is_boosting());
    c.move_player(ControlKey::Other);
    assert_eq!(c.get_state(), (0, 0));
}

#[test]
fn joystick_overwrites_axes() {
    let mut c = PlayerControllerState::new();
    c.move_player_joystick(700, GamepadAxis::LeftStickX);
    c.move_player_joystick(-250, GamepadAxis::LeftStickY);
    assert_eq!(c.get_state(), (700, -250));
    c.move_player_joystick(0, GamepadAxis::LeftStickX);
    assert_eq!(c.get_state(), (0, -250));
    c.move_player_joystick(999, GamepadAxis::Other);
    assert_eq!(c.get_state(), (0, -250));
}

#[test]
fn trigger_sets_boost_past_half_travel() {
    let mut c = PlayerControllerState::new();
    c.move_player_joystick_buttons(501, GamepadButton::RightTrigger2);
    assert!(c.is_boosting());
    c.move_player_joystick_buttons(500, GamepadButton::RightTrigger2);
    assert!(!c.is_boosting());
    c.move_player_joystick_buttons(1000, GamepadButton::Start);
    assert!(!c.is_boosting());
}

#[test]
fn player_controller_folds_a_whole_sample() {
    let mut c = PlayerControllerState::new();
    let sticks = vec![
        GamepadAxisEvent { axis: GamepadAxis::LeftStickX, value: 300 },
        GamepadAxisEvent { axis: GamepadAxis::LeftStickX, value: 600 },
    ];
    let buttons = vec![GamepadButtonEvent { button: GamepadButton::RightTrigger2, value: 800 }];
    let keys = vec![
        KeyEvent { key: ControlKey::Up, pressed: true },
        KeyEvent { key: ControlKey::Up, pressed: false },
        KeyEvent { key: ControlKey::Down, pressed: true },
    ];
    player_controller(&mut c, &sticks, &buttons, &keys);
    // Last stick sample wins; the trigger set boost; the last key wins on y.
    assert_eq!(c.get_state(), (600, -1000));
    assert!(c.is_boosting());
}

#[test]
fn walking_advances_by_speed_times_time() {
    let mut p = PlayerState::new();
    let ctrl = PlayerControllerState { x: 1000, y: 0, boost: false };
    move_player(&mut p, &ctrl, 1000);
    // Full deflection at 128 px/s for one second.
    assert_eq!(p.x, 128 * PX);
    assert_eq!(p.y, 0);
}

#[test]
fn boosting_doubles_the_speed() {
    let mut p = PlayerState::new();
    let ctrl = PlayerControllerState { x: 0, y: -1000, boost: true };
    move_player(&mut p, &ctrl, 500);
    assert_eq!(p.y, -128 * PX);
}

#[test]
fn half_deflection_walks_half_as_fast() {
    let mut p = PlayerState::new();
    let ctrl = PlayerControllerState { x: 500, y: 0, boost: false };
    move_player(&mut p, &ctrl, 1000);
    assert_eq!(p.x, 64 * PX);
}

#[test]
fn walking_clamps_to_the_arena() {
    let mut p = PlayerState { x: 617 * PX, y: 327 * PX };
    let ctrl = PlayerControllerState { x: 1000, y: 1000, boost: true };
    move_player(&mut p, &ctrl, 60_000);
    assert_eq!(p.x, 618 * PX);
    assert_eq!(p.y, 328 * PX);
}

#[test]
fn web_follows_the_player() {
    let p = PlayerState { x: 100 * PX, y: -50 * PX };
    let web = move_web(&p);
    assert_eq!(web.cx, 100 * PX);
    assert_eq!(web.cy, 450 * PX);
    assert_eq!(web.hw, 1_500_000);
    assert_eq!(web.hh, 500 * PX);
}

#[test]
fn mosquito_darts_and_fly_drifts() {
    let mosquito = EnemyEntity {
        x: 0,
        y: 0,
        enemy_type: EnemyType::Mosquito,
        revert_direction: false,
        timer_ms: 0,
    };
    let fly = EnemyEntity {
        x: 0,
        y: 0,
        enemy_type: EnemyType::Fly,
        revert_direction: true,
        timer_ms: 0,
    };
    let moved = move_enemies(&vec![mosquito, fly], 1000, &vec![0, 1000]);
    assert_eq!(moved[0].x, 256 * PX);
    assert_eq!(moved[0].y, 0);
    assert_eq!(moved[0].timer_ms, 1000);
    // Reversed fly: 64 px/s leftwards, full upward bob.
    assert_eq!(moved[1].x, -64 * PX);
    assert_eq!(moved[1].y, 64 * PX);
    assert_eq!(moved[1].timer_ms, 1000);
}

#[test]
fn missing_oscillation_factors_mean_level_flight() {
    let fly = EnemyEntity {
        x: 0,
        y: 0,
        enemy_type: EnemyType::Fly,
        revert_direction: false,
        timer_ms: 0,
    };
    let moved = move_enemies(&vec![fly], 500, &Vec::new());
    assert_eq!(moved[0].x, 32 * PX);
    assert_eq!(moved[0].y, 0);
}

#[test]
fn animation_steps_and_wraps_when_its_timer_fires() {
    let indices = AnimationIndices { first: 0, last: 1 };
    let mut timer = AnimationTimer { timer: RepeatTimer::new(500) };
    let idx = animate_sprite(0, &indices, &mut timer, GameState::Active, 500);
    assert_eq!(idx, 1);
    let idx = animate_sprite(idx, &indices, &mut timer, GameState::Active, 500);
    assert_eq!(idx, 0);
    let idx = animate_sprite(idx, &indices, &mut timer, GameState::Active, 499);
    assert_eq!(idx, 0);
}

#[test]
fn animation_freezes_outside_active_play() {
    let indices = AnimationIndices { first: 0, last: 3 };
    let mut timer = AnimationTimer { timer: RepeatTimer::new(100) };
    let idx = animate_sprite(2, &indices, &mut timer, GameState::Paused, 10_000);
    assert_eq!(idx, 2);
    assert_eq!(timer.timer.acc_ms, 0);
}

#[test]
fn spawn_positions_pin_to_the_edges() {
    let arena = Arena { width_px: 1280, height_px: 720 };
    // Centre row, flying rightwards from the left edge.
    let left = spawn_enemy(&arena, &SpawnDraws { fly: true, revert: false, y_frac: 500 });
    assert_eq!(left.x, -616 * PX);
    assert_eq!(left.y, 0);
    assert_eq!(left.enemy_type, EnemyType::Fly);
    assert!(!left.revert_direction);
    assert_eq!(left.timer_ms, 0);
    // Reversed: from the right edge.
    let right = spawn_enemy(&arena, &SpawnDraws { fly: true, revert: true, y_frac: 500 });
    assert_eq!(right.x, 616 * PX);
    assert!(right.revert_direction);
}

#[test]
fn spawn_vertical_range_spans_the_usable_height() {
    let arena = Arena { width_px: 1280, height_px: 720 };
    // A fly leaves a 16-pixel margin: usable height 704.
    let bottom = spawn_enemy(&arena, &SpawnDraws { fly: true, revert: false, y_frac: 0 });
    assert_eq!(bottom.y, -352 * PX);
    let top = spawn_enemy(&arena, &SpawnDraws { fly: true, revert: false, y_frac: 999 });
    assert_eq!(top.y, 704 * (999 - 500) * 1000);
    // A mosquito leaves a 10-pixel margin: usable height 710.
    let mosquito = spawn_enemy(&arena, &SpawnDraws { fly: false, revert: false, y_frac: 0 });
    assert_eq!(mosquito.y, -355 * PX);
    assert_eq!(mosquito.enemy_type, EnemyType::Mosquito);
}

#[test]
fn drawn_randomness_respects_its_bounds() {
    for _ in 0..200 {
        let d = draw_spawn();
        assert!(d.y_frac < 1000);
    }
}
