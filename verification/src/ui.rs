//! The pure side of the user interface: which energy-bar frame to show,
//! when the boost fire is visible and how it animates, which song belongs
//! to which phase, the start-button hover test, and the values the debug
//! overlay prints. Drawing, audio playback and cursor polling stay with the
//! host.

use vstd::prelude::*;
use crate::ENERGY_FULL;
use crate::entities::{AnimationTimer, Arena};
use crate::geom::{Aabb, POS_LIMIT};
use crate::ledger::GameResources;
use crate::state::GameState;
use crate::timer::spec_acc_plus;

verus! {

/// The energy-bar sprite frame for an energy level: frame 1 is nearly
/// empty, frame 6 full; frame 0 is the out-of-range fallback the sprite
/// sheet reserves.
pub open spec fn spec_energy_bar_index(energy: u32) -> usize {
    if energy <= 250_000 {
        1
    } else if energy <= 400_000 {
        2
    } else if energy <= 550_000 {
        3
    } else if energy <= 700_000 {
        4
    } else if energy <= 850_000 {
        5
    } else if energy <= ENERGY_FULL {
        6
    } else {
        0
    }
}

/// Whether the in-game overlays (energy bar, boost fire) are shown in a
/// phase: they exist during play and while paused, never in the menu or
/// after a game over.
pub open spec fn spec_overlay_visible(game_state: GameState) -> bool {
    game_state != GameState::StartMenu && game_state != GameState::GameOver
}

/// The energy-bar widget: its current sprite frame and whether it is shown.
pub struct EnergyBar {
    pub index: usize,
    pub visible: bool,
}

/// Refresh the energy bar for this tick: hidden in the menu and after a
/// game over; otherwise shown, with the frame keyed to the energy level.
pub fn update_energy_bar(bar: &mut EnergyBar, game_state: GameState, resources: &GameResources)
    ensures
        final(bar).visible == spec_overlay_visible(game_state),
        spec_overlay_visible(game_state) ==> final(bar).index == spec_energy_bar_index(
            resources.energy,
        ),
        !spec_overlay_visible(game_state) ==> final(bar).index == old(bar).index,
{
    match game_state {
        GameState::StartMenu | GameState::GameOver => {
            bar.visible = false;
        },
        _ => {
            bar.visible = true;
            bar.index = if resources.energy <= 250_000 {
                1
            } else if resources.energy <= 400_000 {
                2
            } else if resources.energy <= 550_000 {
                3
            } else if resources.energy <= 700_000 {
                4
            } else if resources.energy <= 850_000 {
                5
            } else if resources.energy <= ENERGY_FULL {
                6
            } else {
                0
            };
        },
    }
}

/// The boost-fire widget: a four-frame looping flame shown only while the
/// player boosts during play.
pub struct EnergyBarFire {
    pub index: usize,
    pub visible: bool,
    pub timer: AnimationTimer,
}

impl EnergyBarFire {
    /// The widget invariant: the frame stays on the four-frame strip and
    /// the pacing timer is well formed.
    pub open spec fn wf(self) -> bool {
        &&& self.index <= 3
        &&& self.timer.timer.wf()
    }
}

/// Refresh the boost fire for this tick: hidden in the menu, after a game
/// over, and whenever the boost input is not held; while boosting in play
/// its pacing timer runs and each firing steps the flame one frame, wrapping
/// after the fourth.
pub fn update_energy_bar_fire(
    fire: &mut EnergyBarFire,
    boosting: bool,
    game_state: GameState,
    dt_ms: u32,
)
    requires
        old(fire).wf(),
    ensures
        final(fire).wf(),
        final(fire).visible == (spec_overlay_visible(game_state) && boosting),
        final(fire).timer.timer.interval_ms == old(fire).timer.timer.interval_ms,
        !(spec_overlay_visible(game_state) && boosting) ==> final(fire).index == old(fire).index
            && final(fire).timer == old(fire).timer,
        (spec_overlay_visible(game_state) && boosting) ==> {
            let fired = spec_acc_plus(old(fire).timer.timer.acc_ms, dt_ms) >= old(
                fire,
            ).timer.timer.interval_ms;
            final(fire).index == if !fired {
                old(fire).index as int
            } else if old(fire).index == 3 {
                0int
            } else {
                old(fire).index + 1
            }
        },
{
    match game_state {
        GameState::StartMenu | GameState::GameOver => {
            fire.visible = false;
        },
        _ => {
            if boosting {
                fire.visible = true;
                let fired = fire.timer.timer.tick(dt_ms);
                if fired {
                    fire.index = if fire.index == 3 {
                        0
                    } else {
                        fire.index + 1
                    };
                }
            } else {
                fire.visible = false;
            }
        },
    }
}

/// The two tracks the game plays: the menu theme, and the jungle track for
/// everything else.
#[derive(Clone, Copy, Debug, PartialEq, Eq, Structural)]
pub enum SongTitle {
    Theme,
    InTheJungle,
}

impl SongTitle {
    /// The asset name of the track.
    pub fn text(&self) -> (r: &'static str)
        ensures
            *self == SongTitle::Theme ==> r@ == "theme"@,
            *self == SongTitle::InTheJungle ==> r@ == "in_the_jungle"@,
    {
        match self {
            SongTitle::Theme => "theme",
            SongTitle::InTheJungle => "in_the_jungle",
        }
    }
}

/// The track that is currently playing.
#[derive(Clone, Copy, Debug, PartialEq, Eq, Structural)]
pub struct Song {
    pub title: SongTitle,
}

/// The track a phase asks for: the theme on the start menu, the jungle
/// track everywhere else.
pub open spec fn spec_song_for_state(game_state: GameState) -> SongTitle {
    if game_state == GameState::StartMenu {
        SongTitle::Theme
    } else {
        SongTitle::InTheJungle
    }
}

/// Decide this tick's music: `Some` names the track to start (replacing
/// whatever plays), `None` keeps the current one. With nothing playing yet,
/// only the start menu starts a track.
pub fn manage_songs(current: Option<&Song>, game_state: GameState) -> (r: Option<Song>)
    ensures
        r == match current {
            Option::None => if game_state == GameState::StartMenu {
                Some(Song { title: spec_song_for_state(game_state) })
            } else {
                None::<Song>
            },
            Option::Some(song) => if song.title != spec_song_for_state(game_state) {
                Some(Song { title: spec_song_for_state(game_state) })
            } else {
                None::<Song>
            },
        },
{
    let desired = if game_state == GameState::StartMenu {
        SongTitle::Theme
    } else {
        SongTitle::InTheJungle
    };
    match current {
        None => {
            if game_state == GameState::StartMenu {
                Some(Song { title: desired })
            } else {
                None
            }
        },
        Some(song) => {
            if song.title != desired {
                Some(Song { title: desired })
            } else {
                None
            }
        },
    }
}

/// The start-menu play button: its box in world coordinates, micro-pixels.
pub struct StartMenuUI {
    pub bounds: Aabb,
}

impl StartMenuUI {
    /// The widget invariant: a well-formed box that sits within a million
    /// pixels of the origin, so the window transform cannot leave the
    /// tracked coordinate range.
    pub open spec fn wf(self) -> bool {
        &&& self.bounds.wf()
        &&& -1_000_000_000_000 <= self.bounds.cx <= 1_000_000_000_000
        &&& -1_000_000_000_000 <= self.bounds.cy <= 1_000_000_000_000
    }
}

/// Where the button's box sits in window coordinates: the window centre
/// minus the world position, on both axes.
pub open spec fn spec_button_screen_box(ui: StartMenuUI, window: Arena) -> Aabb {
    Aabb {
        cx: (window.width_px * 500_000 - ui.bounds.cx) as i64,
        cy: (window.height_px * 500_000 - ui.bounds.cy) as i64,
        hw: ui.bounds.hw,
        hh: ui.bounds.hh,
    }
}

/// Whether the cursor, taken as a one-pixel box, overlaps the button.
pub open spec fn spec_button_hover(
    ui: StartMenuUI,
    window: Arena,
    cursor_x: i64,
    cursor_y: i64,
) -> bool {
    (Aabb { cx: cursor_x, cy: cursor_y, hw: 500_000, hh: 500_000 }).spec_overlaps(
        spec_button_screen_box(ui, window),
    )
}

/// Run the start button for one tick: report the sprite frame (pressed
/// while hovered), and on a click over the button in the start menu, reset
/// the ledger and move to `Init`. Every other combination leaves the ledger
/// and state untouched.
pub fn manage_start_button(
    ui: &StartMenuUI,
    window: &Arena,
    cursor_x: i64,
    cursor_y: i64,
    clicked: bool,
    game_state: GameState,
    resources: &mut GameResources,
) -> (r: (usize, GameState))
    requires
        ui.wf(),
        window.wf(),
        -POS_LIMIT <= cursor_x <= POS_LIMIT,
        -POS_LIMIT <= cursor_y <= POS_LIMIT,
    ensures
        r.0 == if spec_button_hover(*ui, *window, cursor_x, cursor_y) {
            1int
        } else {
            0int
        },
        r.1 == if spec_button_hover(*ui, *window, cursor_x, cursor_y) && clicked && game_state
            == GameState::StartMenu {
            GameState::Init
        } else {
            game_state
        },
        if spec_button_hover(*ui, *window, cursor_x, cursor_y) && clicked && game_state
            == GameState::StartMenu {
            *final(resources) == (GameResources { energy: ENERGY_FULL, score: 0u32 })
        } else {
            *final(resources) == *old(resources)
        },
{
    let screen_box = Aabb {
        cx: (window.width_px as i64) * 500_000 - ui.bounds.cx,
        cy: (window.height_px as i64) * 500_000 - ui.bounds.cy,
        hw: ui.bounds.hw,
        hh: ui.bounds.hh,
    };
    let cursor_box = Aabb { cx: cursor_x, cy: cursor_y, hw: 500_000, hh: 500_000 };
    if cursor_box.overlaps(&screen_box) {
        if clicked && game_state == GameState::StartMenu {
            resources.reset();
            return (1, GameState::Init);
        }
        (1, game_state)
    } else {
        (0, game_state)
    }
}

/// What to do with the start-menu visuals this tick.
#[derive(Clone, Copy, Debug, PartialEq, Eq, Structural)]
pub enum MenuCommand {
    Show,
    Hide,
    Keep,
}

/// Decide the start-menu visuals: shown exactly while the session sits in
/// the start menu, built once on entry and torn down once on leave.
pub fn show_start_menu_ui(game_state: GameState, shown: bool) -> (r: MenuCommand)
    ensures
        r == if game_state == GameState::StartMenu {
            if shown {
                MenuCommand::Keep
            } else {
                MenuCommand::Show
            }
        } else {
            if shown {
                MenuCommand::Hide
            } else {
                MenuCommand::Keep
            }
        },
{
    if game_state == GameState::StartMenu {
        if shown {
            MenuCommand::Keep
        } else {
            MenuCommand::Show
        }
    } else {
        if shown {
            MenuCommand::Hide
        } else {
            MenuCommand::Keep
        }
    }
}

/// The energy value the debug overlay prints, in tenths of a percent of a
/// full bar.
pub fn energy_percent_tenths(energy: u32) -> (r: u32)
    ensures
        r == energy / 1000,
{
    energy / 1000
}

} // verus!
