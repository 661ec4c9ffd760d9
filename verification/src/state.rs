//! The game-state machine: five phases and the edge-triggered events that
//! move a session between them.

use vstd::prelude::*;

verus! {

/// The phase a play session is in. A fresh session sits in the start menu.
#[derive(Clone, Copy, Debug, PartialEq, Eq, Structural)]
pub enum GameState {
    StartMenu,
    Init,
    Active,
    Paused,
    GameOver,
}

/// The events that can move the session from one phase to another. Each is
/// edge-triggered: it describes one key press or one condition becoming true
/// during a tick, never a level that is held across ticks.
#[derive(Clone, Copy, Debug, PartialEq, Eq, Structural)]
pub enum GameEvent {
    /// The confirm input (start button) was pressed.
    Confirm,
    /// The pause input was pressed.
    PauseToggle,
    /// Entity setup after `Init` finished, within the same tick.
    BootstrapComplete,
    /// The energy bar reached zero.
    EnergyExhausted,
    /// An enemy contact killed the player.
    PlayerDied,
    /// The tick that despawns every live entity after a game over ran.
    CleanupDone,
}

/// The complete transition table. Every pair of state and event maps to
/// exactly one successor, so the machine is deterministic; any pair not
/// listed leaves the state unchanged.
pub open spec fn spec_step(s: GameState, e: GameEvent) -> GameState {
    match (s, e) {
        (GameState::StartMenu, GameEvent::Confirm) => GameState::Init,
        (GameState::Init, GameEvent::BootstrapComplete) => GameState::Active,
        (GameState::Active, GameEvent::PauseToggle) => GameState::Paused,
        (GameState::Active, GameEvent::EnergyExhausted) => GameState::GameOver,
        (GameState::Active, GameEvent::PlayerDied) => GameState::GameOver,
        (GameState::Paused, GameEvent::PauseToggle) => GameState::Active,
        (GameState::GameOver, GameEvent::CleanupDone) => GameState::StartMenu,
        _ => s,
    }
}

/// Feed one event to the state machine and return the successor state.
pub fn step(s: GameState, e: GameEvent) -> (r: GameState)
    ensures
        r == spec_step(s, e),
{
    match (s, e) {
        (GameState::StartMenu, GameEvent::Confirm) => GameState::Init,
        (GameState::Init, GameEvent::BootstrapComplete) => GameState::Active,
        (GameState::Active, GameEvent::PauseToggle) => GameState::Paused,
        (GameState::Active, GameEvent::EnergyExhausted) => GameState::GameOver,
        (GameState::Active, GameEvent::PlayerDied) => GameState::GameOver,
        (GameState::Paused, GameEvent::PauseToggle) => GameState::Active,
        (GameState::GameOver, GameEvent::CleanupDone) => GameState::StartMenu,
        _ => s,
    }
}

impl GameState {
    /// The label the debug overlay shows for this phase.
    pub fn label(&self) -> (r: &'static str)
        ensures
            *self == GameState::Paused ==> r@ == "Pause"@,
            *self == GameState::Active ==> r@ == "Active"@,
            *self == GameState::GameOver ==> r@ == "Game Over"@,
            *self == GameState::StartMenu ==> r@ == "Start Menu"@,
            *self == GameState::Init ==> r@ == "Restarting"@,
    {
        match self {
            GameState::Paused => "Pause",
            GameState::Active => "Active",
            GameState::GameOver => "Game Over",
            GameState::StartMenu => "Start Menu",
            GameState::Init => "Restarting",
        }
    }
}

/// From the start menu, the confirm event is the only one that moves the
/// machine, and it moves it to `Init`.
pub proof fn lemma_start_menu_transitions(e: GameEvent)
    ensures
        spec_step(GameState::StartMenu, e) == if e == GameEvent::Confirm {
            GameState::Init
        } else {
            GameState::StartMenu
        },
{
}

/// From `Active`, exactly the exhausted-energy and player-death events reach
/// `GameOver`; the pause event suspends the session and nothing else moves it.
pub proof fn lemma_active_transitions(e: GameEvent)
    ensures
        spec_step(GameState::Active, e) == GameState::GameOver <==> (e == GameEvent::EnergyExhausted
            || e == GameEvent::PlayerDied),
        spec_step(GameState::Active, e) == GameState::Paused <==> e == GameEvent::PauseToggle,
        (e != GameEvent::EnergyExhausted && e != GameEvent::PlayerDied && e
            != GameEvent::PauseToggle) ==> spec_step(GameState::Active, e) == GameState::Active,
{
}

/// Pause is a toggle: it suspends an active session and resumes a paused one,
/// and while paused no other event moves the machine.
pub proof fn lemma_pause_is_a_toggle(e: GameEvent)
    ensures
        spec_step(GameState::Active, GameEvent::PauseToggle) == GameState::Paused,
        spec_step(GameState::Paused, GameEvent::PauseToggle) == GameState::Active,
        e != GameEvent::PauseToggle ==> spec_step(GameState::Paused, e) == GameState::Paused,
{
}

/// Every phase is reachable from the start menu: confirm enters `Init`,
/// bootstrap enters `Active`, pause enters `Paused`, and running out of
/// energy enters `GameOver`, which the cleanup tick returns to the menu.
pub proof fn lemma_all_states_reachable()
    ensures
        spec_step(GameState::StartMenu, GameEvent::Confirm) == GameState::Init,
        spec_step(GameState::Init, GameEvent::BootstrapComplete) == GameState::Active,
        spec_step(GameState::Active, GameEvent::PauseToggle) == GameState::Paused,
        spec_step(GameState::Active, GameEvent::EnergyExhausted) == GameState::GameOver,
        spec_step(GameState::GameOver, GameEvent::CleanupDone) == GameState::StartMenu,
{
}

} // verus!
