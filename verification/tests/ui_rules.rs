use spiderweb::entities::{AnimationTimer, Arena};
use spiderweb::geom::Aabb;
use spiderweb::ledger::GameResources;
use spiderweb::state::GameState;
use spiderweb::timer::RepeatTimer;
use spiderweb::ui::{
    EnergyBar, EnergyBarFire, MenuCommand, Song, SongTitle, StartMenuUI, energy_percent_tenths,
    manage_songs, manage_start_button, show_start_menu_ui, update_energy_bar,
    update_energy_bar_fire,
};
use spiderweb::ENERGY_FULL;

const PX: i64 = 1_000_000;

fn bar_index(energy: u32) -> usize {
    let mut bar = EnergyBar { index: 0, visible: false };
    update_energy_bar(&mut bar, GameState::Active, &GameResources { energy, score: 0 });
    assert!(bar.visible);
    bar.index
}

#[test]
fn energy_bar_frames_follow_the_level() {
    assert_eq!(bar_index(0), 1);
    assert_eq!(bar_index(250_000), 1);
    assert_eq!(bar_index(250_001), 2);
    assert_eq!(bar_index(400_000), 2);
    assert_eq!(bar_index(500_000), 3);
    assert_eq!(bar_index(700_000), 4);
    assert_eq!(bar_index(850_000), 5);
    assert_eq!(bar_index(ENERGY_FULL), 6);
}

#[test]
fn energy_bar_hides_in_menu_and_game_over() {
    for state in [GameState::StartMenu, GameState::GameOver] {
        let mut bar = EnergyBar { index: 4, visible: true };
        update_energy_bar(&mut bar, state, &GameResources { energy: 0, score: 0 });
        assert!(!bar.visible);
        assert_eq!(bar.index, 4);
    }
}

#[test]
fn boost_fire_shows_and_animates_only_while_boosting_in_play() {
    let mut fire = EnergyBarFire {
        index: 0,
        visible: false,
        timer: AnimationTimer { timer: RepeatTimer::new(100) },
    };
    update_energy_bar_fire(&mut fire, true, GameState::Active, 100);
    assert!(fire.visible);
    assert_eq!(fire.index, 1);
    update_energy_bar_fire(&mut fire, true, GameState::Active, 99);
    assert_eq!(fire.index, 1);
    update_energy_bar_fire(&mut fire, false, GameState::Active, 1000);
    assert!(!fire.visible);
    assert_eq!(fire.index, 1);
    update_energy_bar_fire(&mut fire, true, GameState::StartMenu, 1000);
    assert!(!fire.visible);
}

#[test]
fn boost_fire_wraps_after_its_fourth_frame() {
    let mut fire = EnergyBarFire {
        index: 3,
        visible: true,
        timer: AnimationTimer { timer: RepeatTimer::new(100) },
    };
    update_energy_bar_fire(&mut fire, true, GameState::Paused, 100);
    assert_eq!(fire.index, 0);
}

#[test]
fn songs_follow_the_phase() {
    assert_eq!(
        manage_songs(None, GameState::StartMenu),
        Some(Song { title: SongTitle::Theme })
    );
    assert_eq!(manage_songs(None, GameState::Active), None);
    let theme = Song { title: SongTitle::Theme };
    let jungle = Song { title: SongTitle::InTheJungle };
    assert_eq!(manage_songs(Some(&theme), GameState::StartMenu), None);
    assert_eq!(manage_songs(Some(&theme), GameState::Active), Some(jungle));
    assert_eq!(manage_songs(Some(&jungle), GameState::GameOver), None);
    assert_eq!(manage_songs(Some(&jungle), GameState::StartMenu), Some(theme));
}

#[test]
fn song_titles_name_their_tracks() {
    assert_eq!(SongTitle::Theme.text(), "theme");
    assert_eq!(SongTitle::InTheJungle.text(), "in_the_jungle");
}

fn play_button() -> StartMenuUI {
    // The play button of a 1280x720 window: centred, 260 pixels down,
    // drawn at 224x136 pixels.
    StartMenuUI { bounds: Aabb { cx: 0, cy: -260 * PX, hw: 112 * PX, hh: 68 * PX } }
}

#[test]
fn start_button_hover_and_click_start_the_game() {
    let window = Arena { width_px: 1280, height_px: 720 };
    let ui = play_button();
    // The button maps to window coordinates around (640, 620).
    let mut res = GameResources { energy: 5, score: 5 };
    let (frame, next) = manage_start_button(
        &ui, &window, 640 * PX, 620 * PX, true, GameState::StartMenu, &mut res,
    );
    assert_eq!(frame, 1);
    assert_eq!(next, GameState::Init);
    assert_eq!(res, GameResources { energy: ENERGY_FULL, score: 0 });
}

#[test]
fn start_button_hover_without_click_only_highlights() {
    let window = Arena { width_px: 1280, height_px: 720 };
    let ui = play_button();
    let mut res = GameResources { energy: 5, score: 5 };
    let (frame, next) = manage_start_button(
        &ui, &window, 640 * PX, 620 * PX, false, GameState::StartMenu, &mut res,
    );
    assert_eq!(frame, 1);
    assert_eq!(next, GameState::StartMenu);
    assert_eq!(res, GameResources { energy: 5, score: 5 });
}

#[test]
fn start_button_misses_away_from_the_box() {
    let window = Arena { width_px: 1280, height_px: 720 };
    let ui = play_button();
    let mut res = GameResources { energy: 5, score: 5 };
    let (frame, next) = manage_start_button(
        &ui, &window, 0, 0, true, GameState::StartMenu, &mut res,
    );
    assert_eq!(frame, 0);
    assert_eq!(next, GameState::StartMenu);
    assert_eq!(res, GameResources { energy: 5, score: 5 });
}

#[test]
fn start_button_click_outside_the_menu_does_nothing() {
    let window = Arena { width_px: 1280, height_px: 720 };
    let ui = play_button();
    let mut res = GameResources { energy: 5, score: 5 };
    let (_, next) = manage_start_button(
        &ui, &window, 640 * PX, 620 * PX, true, GameState::Active, &mut res,
    );
    assert_eq!(next, GameState::Active);
    assert_eq!(res, GameResources { energy: 5, score: 5 });
}

#[test]
fn menu_visuals_build_once_and_tear_down_once() {
    assert_eq!(show_start_menu_ui(GameState::StartMenu, false), MenuCommand::Show);
    assert_eq!(show_start_menu_ui(GameState::StartMenu, true), MenuCommand::Keep);
    assert_eq!(show_start_menu_ui(GameState::Active, true), MenuCommand::Hide);
    assert_eq!(show_start_menu_ui(GameState::GameOver, false), MenuCommand::Keep);
}

#[test]
fn debug_overlay_energy_in_tenths_of_a_percent() {
    assert_eq!(energy_percent_tenths(ENERGY_FULL), 1000);
    assert_eq!(energy_percent_tenths(250_000), 250);
    assert_eq!(energy_percent_tenths(999), 0);
}
