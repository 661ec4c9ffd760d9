use spiderweb::ENERGY_FULL;
use spiderweb::ledger::{GameResources, burn_energy};
use spiderweb::state::{GameEvent, GameState, step};

#[test]
fn step_start_menu_confirm_enters_init() {
    assert_eq!(step(GameState::StartMenu, GameEvent::Confirm), GameState::Init);
}

#[test]
fn step_start_menu_ignores_other_events() {
    assert_eq!(step(GameState::StartMenu, GameEvent::PauseToggle), GameState::StartMenu);
    assert_eq!(step(GameState::StartMenu, GameEvent::EnergyExhausted), GameState::StartMenu);
    assert_eq!(step(GameState::StartMenu, GameEvent::PlayerDied), GameState::StartMenu);
    assert_eq!(step(GameState::StartMenu, GameEvent::BootstrapComplete), GameState::StartMenu);
    assert_eq!(step(GameState::StartMenu, GameEvent::CleanupDone), GameState::StartMenu);
}

#[test]
fn step_active_reaches_game_over_exactly_on_exhaustion_or_death() {
    assert_eq!(step(GameState::Active, GameEvent::EnergyExhausted), GameState::GameOver);
    assert_eq!(step(GameState::Active, GameEvent::PlayerDied), GameState::GameOver);
    assert_eq!(step(GameState::Active, GameEvent::Confirm), GameState::Active);
    assert_eq!(step(GameState::Active, GameEvent::BootstrapComplete), GameState::Active);
    assert_eq!(step(GameState::Active, GameEvent::CleanupDone), GameState::Active);
}

#[test]
fn step_pause_toggles_and_paused_ignores_everything_else() {
    assert_eq!(step(GameState::Active, GameEvent::PauseToggle), GameState::Paused);
    assert_eq!(step(GameState::Paused, GameEvent::PauseToggle), GameState::Active);
    assert_eq!(step(GameState::Paused, GameEvent::Confirm), GameState::Paused);
    assert_eq!(step(GameState::Paused, GameEvent::EnergyExhausted), GameState::Paused);
    assert_eq!(step(GameState::Paused, GameEvent::PlayerDied), GameState::Paused);
    assert_eq!(step(GameState::Paused, GameEvent::CleanupDone), GameState::Paused);
}

#[test]
fn step_game_over_cleanup_returns_to_menu() {
    assert_eq!(step(GameState::GameOver, GameEvent::CleanupDone), GameState::StartMenu);
    assert_eq!(step(GameState::GameOver, GameEvent::Confirm), GameState::GameOver);
    assert_eq!(step(GameState::Init, GameEvent::BootstrapComplete), GameState::Active);
}

#[test]
fn state_labels() {
    assert_eq!(GameState::Paused.label(), "Pause");
    assert_eq!(GameState::Active.label(), "Active");
    assert_eq!(GameState::GameOver.label(), "Game Over");
    assert_eq!(GameState::StartMenu.label(), "Start Menu");
    assert_eq!(GameState::Init.label(), "Restarting");
}

fn kill_energy(start: u32) -> u32 {
    let mut res = GameResources { energy: start, score: 0 };
    res.apply_kill();
    res.energy
}

#[test]
fn kill_bonus_table() {
    // 0.1 -> 0.4, 0.5 -> 0.7, 0.8 -> 0.9, 0.95 -> 0.96, 0.999 -> 0.999
    assert_eq!(kill_energy(100_000), 400_000);
    assert_eq!(kill_energy(500_000), 700_000);
    assert_eq!(kill_energy(800_000), 900_000);
    assert_eq!(kill_energy(950_000), 960_000);
    assert_eq!(kill_energy(999_000), 999_000);
}

#[test]
fn kill_bonus_boundaries() {
    assert_eq!(kill_energy(0), 300_000);
    assert_eq!(kill_energy(299_999), 599_999);
    assert_eq!(kill_energy(300_000), 500_000);
    assert_eq!(kill_energy(699_999), 899_999);
    assert_eq!(kill_energy(700_000), 800_000);
    assert_eq!(kill_energy(899_999), 999_999);
    assert_eq!(kill_energy(900_000), 910_000);
    assert_eq!(kill_energy(989_999), 999_999);
    assert_eq!(kill_energy(990_000), 990_000);
    assert_eq!(kill_energy(ENERGY_FULL), ENERGY_FULL);
}

#[test]
fn kill_increments_score() {
    let mut res = GameResources { energy: 0, score: 41 };
    res.apply_kill();
    assert_eq!(res.score, 42);
}

#[test]
fn burn_idle_rate_for_ten_seconds() {
    let mut res = GameResources { energy: ENERGY_FULL, score: 0 };
    let exhausted = burn_energy(&mut res, GameState::Active, false, false, 10_000);
    assert!(!exhausted);
    assert_eq!(res.energy, 250_000);
}

#[test]
fn burn_rates_by_mode() {
    let mut idle = GameResources { energy: ENERGY_FULL, score: 0 };
    burn_energy(&mut idle, GameState::Active, false, false, 1000);
    assert_eq!(idle.energy, 925_000);

    let mut moving = GameResources { energy: ENERGY_FULL, score: 0 };
    burn_energy(&mut moving, GameState::Active, true, false, 1000);
    assert_eq!(moving.energy, 875_000);

    let mut boosting = GameResources { energy: ENERGY_FULL, score: 0 };
    burn_energy(&mut boosting, GameState::Active, false, true, 1000);
    assert_eq!(boosting.energy, 700_000);
}

#[test]
fn burn_moving_wins_over_boosting() {
    // Both held: the moving rate applies, not the sprinting one.
    let mut res = GameResources { energy: ENERGY_FULL, score: 0 };
    burn_energy(&mut res, GameState::Active, true, true, 1000);
    assert_eq!(res.energy, 875_000);
}

#[test]
fn burn_clamps_at_zero_and_reports_exhaustion() {
    let mut res = GameResources { energy: 1000, score: 7 };
    let exhausted = burn_energy(&mut res, GameState::Active, false, false, 1000);
    assert!(exhausted);
    assert_eq!(res.energy, 0);
    assert_eq!(res.score, 7);
}

#[test]
fn burn_only_while_active() {
    for state in [GameState::StartMenu, GameState::Init, GameState::Paused, GameState::GameOver] {
        let mut res = GameResources { energy: 500_000, score: 3 };
        let exhausted = burn_energy(&mut res, state, true, true, 60_000);
        assert!(!exhausted);
        assert_eq!(res.energy, 500_000);
        assert_eq!(res.score, 3);
    }
}

#[test]
fn kill_never_exceeds_full_bar() {
    for start in [0u32, 250_000, 500_000, 750_000, 900_000, 989_999, 999_999, ENERGY_FULL] {
        let end = kill_energy(start);
        assert!(end <= ENERGY_FULL);
        assert!(end >= start);
    }
}

#[test]
fn reset_refills_and_zeroes() {
    let mut res = GameResources { energy: 123, score: 99 };
    res.reset();
    assert_eq!(res.energy, ENERGY_FULL);
    assert_eq!(res.score, 0);
}
