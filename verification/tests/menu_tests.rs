use game::input::{FrameInput, Pointer};
use game::keybinds::{KEY_A, KEY_D, KEY_ENTER, KEY_ESCAPE, KEY_S, KEY_T, KEY_W};
use game::menus::{
    AudioSettingsState, Effect, GameMenus, InventoryPage, InventoryState, PauseMenuState,
    StartupState,
};
use game::story::StoryPhase;

const KEY_J: u16 = 0x004a;

fn press(keys: &[u16]) -> FrameInput {
    FrameInput {
        pressed: keys.to_vec(),
        last_key: keys.last().copied(),
        left_click: false,
        right_click: false,
        pointer: None,
    }
}

fn nothing() -> FrameInput {
    press(&[])
}

fn at_main_menu() -> GameMenus {
    let mut m = GameMenus::new();
    m.startup_step(&press(&[KEY_J]));
    m
}

fn playing() -> GameMenus {
    let mut m = at_main_menu();
    m.startup_step(&press(&[KEY_ENTER]));
    m
}

#[test]
fn starts_on_the_splash_screen() {
    let m = GameMenus::new();
    assert_eq!(m.startup_state, StartupState::Splash);
    assert_eq!(m.pause_menu_state, PauseMenuState::Closed);
    assert_eq!(m.story, StoryPhase::NotPlaying);
    assert!(!m.paused);
    assert!(!m.startup_done());
    assert_eq!(m.sound.menu_clicks_volume, 10);
    assert!(m.abilities.dash_enabled);
}

#[test]
fn splash_waits_for_input() {
    let mut m = GameMenus::new();
    let fx = m.startup_step(&nothing());
    assert!(fx.is_empty());
    assert_eq!(m.startup_state, StartupState::Splash);
}

#[test]
fn any_key_opens_the_main_menu_with_a_click() {
    let mut m = GameMenus::new();
    let fx = m.startup_step(&press(&[KEY_J]));
    assert_eq!(fx, vec![Effect::Click { volume: 10 }]);
    assert_eq!(m.startup_state, StartupState::MainMenu);
    assert_eq!(m.startup_menu_role, 0);
}

#[test]
fn a_mouse_click_opens_the_main_menu() {
    let mut m = GameMenus::new();
    let mut i = nothing();
    i.right_click = true;
    m.startup_step(&i);
    assert_eq!(m.startup_state, StartupState::MainMenu);
}

#[test]
fn play_starts_the_game() {
    let mut m = at_main_menu();
    let fx = m.startup_step(&press(&[KEY_ENTER]));
    assert_eq!(fx, vec![Effect::Click { volume: 10 }]);
    assert_eq!(m.startup_state, StartupState::Done);
    assert_eq!(m.story, StoryPhase::Playing);
    assert!(m.startup_done());
}

#[test]
fn menu_highlight_wraps() {
    let mut m = at_main_menu();
    let fx = m.startup_step(&press(&[KEY_W]));
    assert_eq!(fx, vec![Effect::Click { volume: 10 }]);
    assert_eq!(m.startup_menu_role, 2);
    m.startup_step(&press(&[KEY_S]));
    assert_eq!(m.startup_menu_role, 0);
    m.startup_step(&press(&[KEY_S]));
    assert_eq!(m.startup_menu_role, 1);
}

#[test]
fn exit_asks_to_quit() {
    let mut m = at_main_menu();
    m.startup_step(&press(&[KEY_W]));
    let fx = m.startup_step(&press(&[KEY_ENTER]));
    assert_eq!(fx, vec![Effect::Click { volume: 10 }, Effect::Exit]);
}

#[test]
fn escape_returns_to_the_splash_screen() {
    let mut m = at_main_menu();
    m.startup_step(&press(&[KEY_ESCAPE]));
    assert_eq!(m.startup_state, StartupState::Splash);
}

#[test]
fn pointer_highlights_the_row_under_it() {
    let mut m = at_main_menu();
    let mut i = nothing();
    i.pointer = Some(Pointer { x: 5000, y: 3660 });
    let fx = m.startup_step(&i);
    assert!(fx.is_empty());
    assert_eq!(m.startup_menu_role, 1);
    // Exactly on a row boundary nothing changes.
    i.pointer = Some(Pointer { x: 5000, y: 3270 + 760 });
    m.startup_step(&i);
    assert_eq!(m.startup_menu_role, 1);
}

#[test]
fn settings_and_back() {
    let mut m = at_main_menu();
    m.startup_step(&press(&[KEY_S]));
    m.startup_step(&press(&[KEY_ENTER]));
    assert_eq!(m.startup_state, StartupState::Settings);
    assert_eq!(m.startup_menu_role, 0);
    m.startup_step(&press(&[KEY_ESCAPE]));
    assert_eq!(m.startup_state, StartupState::MainMenu);
    assert_eq!(m.startup_menu_role, 1);
}

#[test]
fn game_settings_switch_abilities() {
    let mut m = at_main_menu();
    m.startup_step(&press(&[KEY_S]));
    m.startup_step(&press(&[KEY_ENTER]));
    m.startup_step(&press(&[KEY_ENTER]));
    assert_eq!(m.startup_state, StartupState::GameSettings);
    m.startup_step(&press(&[KEY_ENTER]));
    assert!(!m.abilities.dash_enabled);
    m.startup_step(&press(&[KEY_S]));
    m.startup_step(&press(&[KEY_ENTER]));
    assert!(!m.abilities.sprint_enabled);
    assert!(m.abilities.wall_jump_enabled);
}

fn at_audio_settings() -> GameMenus {
    let mut m = at_main_menu();
    m.startup_step(&press(&[KEY_S]));
    m.startup_step(&press(&[KEY_ENTER]));
    m.startup_step(&press(&[KEY_S]));
    m.startup_step(&press(&[KEY_ENTER]));
    assert_eq!(
        m.startup_state,
        StartupState::AudioSettings { audio_settings_state: AudioSettingsState::Standard }
    );
    m
}

#[test]
fn volume_keys_move_the_music_volume() {
    let mut m = at_audio_settings();
    for _ in 0..5 {
        m.startup_step(&press(&[KEY_S]));
    }
    assert_eq!(m.startup_menu_role, 5);
    m.startup_step(&press(&[KEY_ENTER]));
    assert_eq!(
        m.startup_state,
        StartupState::AudioSettings { audio_settings_state: AudioSettingsState::MusicVolume }
    );
    let fx = m.startup_step(&press(&[KEY_A]));
    assert_eq!(fx, vec![Effect::Click { volume: 10 }]);
    assert_eq!(m.sound.music_volume, 9);
    m.startup_step(&press(&[KEY_D]));
    m.startup_step(&press(&[KEY_D]));
    assert_eq!(m.sound.music_volume, 10);
    m.startup_step(&press(&[KEY_ENTER]));
    assert_eq!(
        m.startup_state,
        StartupState::AudioSettings { audio_settings_state: AudioSettingsState::Standard }
    );
}

#[test]
fn menu_click_volume_is_announced() {
    let mut m = at_audio_settings();
    m.startup_step(&press(&[KEY_W]));
    m.startup_step(&press(&[KEY_W]));
    assert_eq!(m.startup_menu_role, 7);
    m.startup_step(&press(&[KEY_ENTER]));
    let fx = m.startup_step(&press(&[KEY_A]));
    assert_eq!(fx, vec![Effect::Click { volume: 10 }, Effect::SetClickVolume { volume: 9 }]);
    assert_eq!(m.sound.menu_clicks_volume, 9);
    let fx = m.startup_step(&press(&[KEY_A]));
    assert_eq!(fx, vec![Effect::Click { volume: 9 }, Effect::SetClickVolume { volume: 8 }]);
}

#[test]
fn slider_click_sets_the_picked_level() {
    let mut m = at_audio_settings();
    for _ in 0..6 {
        m.startup_step(&press(&[KEY_S]));
    }
    m.startup_step(&press(&[KEY_ENTER]));
    assert_eq!(
        m.startup_state,
        StartupState::AudioSettings { audio_settings_state: AudioSettingsState::SFXVolume }
    );
    let mut i = nothing();
    i.pointer = Some(Pointer { x: 5224 + 488 * 2 + 10, y: 4350 + 100 });
    i.left_click = true;
    m.startup_step(&i);
    assert_eq!(m.sound.sfx_volume, 3);
}

#[test]
fn switching_off_menu_clicks_silences_them() {
    let mut m = at_audio_settings();
    for _ in 0..4 {
        m.startup_step(&press(&[KEY_S]));
    }
    m.startup_step(&press(&[KEY_ENTER]));
    assert!(!m.sound.menu_clicks_settings_toggle);
    let fx = m.startup_step(&press(&[KEY_S]));
    assert!(fx.is_empty());
}

#[test]
fn binding_a_key_in_the_controls_page() {
    let mut m = at_main_menu();
    m.startup_step(&press(&[KEY_S]));
    m.startup_step(&press(&[KEY_ENTER]));
    for _ in 0..3 {
        m.startup_step(&press(&[KEY_S]));
    }
    m.startup_step(&press(&[KEY_ENTER]));
    assert_eq!(m.startup_state, StartupState::ControlsSettings);
    m.startup_step(&press(&[KEY_ENTER]));
    assert!(m.awaiting_kb_input);
    let fx = m.startup_step(&press(&[KEY_J]));
    assert!(fx.is_empty());
    assert!(!m.awaiting_kb_input);
    assert_eq!(m.keys.move_left, KEY_J);
}

#[test]
fn change_keybind_ignores_enter() {
    let mut m = GameMenus::new();
    m.awaiting_kb_input = true;
    m.kb_to_change = game::keybinds::Keybind::Jump;
    m.change_keybind(Some(KEY_ENTER));
    assert!(!m.awaiting_kb_input);
    assert_eq!(m.keys.jump, game::keybinds::KEY_SPACE);
    m.awaiting_kb_input = true;
    m.change_keybind(None);
    assert!(m.awaiting_kb_input);
    m.change_keybind(Some(KEY_J));
    assert_eq!(m.keys.jump, KEY_J);
}

#[test]
fn escape_pauses_and_resumes() {
    let mut m = playing();
    let fx = m.playing_step(&press(&[KEY_ESCAPE]));
    assert_eq!(fx, vec![Effect::Click { volume: 10 }]);
    assert!(m.paused);
    assert_eq!(m.pause_menu_state, PauseMenuState::Menu);
    m.playing_step(&press(&[KEY_ESCAPE]));
    assert!(!m.paused);
    assert_eq!(m.pause_menu_state, PauseMenuState::Closed);
}

#[test]
fn pause_menu_back_to_main_menu() {
    let mut m = playing();
    m.playing_step(&press(&[KEY_ESCAPE]));
    m.playing_step(&press(&[KEY_S]));
    m.playing_step(&press(&[KEY_S]));
    assert_eq!(m.pause_menu_role, 2);
    m.playing_step(&press(&[KEY_ENTER]));
    assert_eq!(m.startup_state, StartupState::MainMenu);
    assert_eq!(m.story, StoryPhase::NotPlaying);
    assert!(!m.paused);
}

#[test]
fn pause_menu_exit() {
    let mut m = playing();
    m.playing_step(&press(&[KEY_ESCAPE]));
    m.playing_step(&press(&[KEY_W]));
    let fx = m.playing_step(&press(&[KEY_ENTER]));
    assert_eq!(fx, vec![Effect::Click { volume: 10 }, Effect::Exit]);
}

#[test]
fn inventory_pages() {
    let mut m = playing();
    m.playing_step(&press(&[KEY_T]));
    assert_eq!(m.inventory_state, InventoryState::Open { inventory_page: InventoryPage::Items });
    m.playing_step(&press(&[KEY_D]));
    assert_eq!(m.inventory_state, InventoryState::Open { inventory_page: InventoryPage::Equipment });
    m.playing_step(&press(&[KEY_A]));
    m.playing_step(&press(&[KEY_A]));
    assert_eq!(m.inventory_state, InventoryState::Open { inventory_page: InventoryPage::EnemyLog });
    m.playing_step(&press(&[KEY_T]));
    assert_eq!(
        m.inventory_state,
        InventoryState::Closed { last_inventory_page: InventoryPage::EnemyLog }
    );
    m.playing_step(&press(&[KEY_T]));
    assert_eq!(m.inventory_state, InventoryState::Open { inventory_page: InventoryPage::EnemyLog });
}

#[test]
fn escape_closes_the_inventory_before_pausing() {
    let mut m = playing();
    m.playing_step(&press(&[KEY_T]));
    m.playing_step(&press(&[KEY_ESCAPE]));
    assert!(!m.paused);
    assert_eq!(m.inventory_state, InventoryState::Closed { last_inventory_page: InventoryPage::Items });
}

#[test]
fn escape_while_waiting_binds_nothing() {
    let mut m = at_main_menu();
    m.startup_step(&press(&[KEY_S]));
    m.startup_step(&press(&[KEY_ENTER]));
    for _ in 0..3 {
        m.startup_step(&press(&[KEY_S]));
    }
    m.startup_step(&press(&[KEY_ENTER]));
    m.startup_step(&press(&[KEY_ENTER]));
    assert!(m.awaiting_kb_input);
    let fx = m.startup_step(&press(&[KEY_ESCAPE]));
    assert_eq!(fx, vec![Effect::Click { volume: 10 }]);
    assert!(!m.awaiting_kb_input);
    assert_eq!(m.startup_state, StartupState::ControlsSettings);
    assert_eq!(m.keys.move_left, KEY_A);
}

#[test]
fn inventory_key_works_with_other_keys_and_while_paused() {
    let mut m = playing();
    m.playing_step(&press(&[KEY_ESCAPE]));
    assert!(m.paused);
    m.playing_step(&press(&[game::keybinds::KEY_SPACE, KEY_T]));
    assert_eq!(m.inventory_state, InventoryState::Open { inventory_page: InventoryPage::Items });
    assert!(m.paused);
    m.playing_step(&press(&[KEY_D, game::keybinds::KEY_SPACE]));
    assert_eq!(m.inventory_state, InventoryState::Open { inventory_page: InventoryPage::Equipment });
    m.playing_step(&press(&[KEY_A]));
    assert_eq!(m.inventory_state, InventoryState::Open { inventory_page: InventoryPage::Items });
    m.playing_step(&press(&[KEY_T, game::keybinds::KEY_SPACE]));
    assert_eq!(m.inventory_state, InventoryState::Closed { last_inventory_page: InventoryPage::Items });
}

#[test]
fn closed_pause_menu_keeps_its_highlight_in_range() {
    let mut m = playing();
    m.playing_step(&press(&[KEY_ESCAPE]));
    m.playing_step(&press(&[KEY_W]));
    assert_eq!(m.pause_menu_role, 3);
    m.playing_step(&press(&[KEY_ESCAPE]));
    assert_eq!(m.pause_menu_state, PauseMenuState::Closed);
    assert!(m.pause_menu_role < 4);
}

#[test]
fn binding_the_inventory_key_on_the_pause_menu_takes_effect_that_frame() {
    const KEY_K: u16 = 0x004b;
    let mut m = playing();
    m.playing_step(&press(&[KEY_ESCAPE]));
    m.playing_step(&press(&[KEY_S]));
    m.playing_step(&press(&[KEY_ENTER]));
    assert_eq!(m.pause_menu_state, PauseMenuState::Settings);
    for _ in 0..3 {
        m.playing_step(&press(&[KEY_S]));
    }
    m.playing_step(&press(&[KEY_ENTER]));
    assert_eq!(m.pause_menu_state, PauseMenuState::ControlsSettings);
    assert_eq!(m.pause_menu_role, 3);
    for _ in 0..4 {
        m.playing_step(&press(&[KEY_S]));
    }
    m.playing_step(&press(&[KEY_D]));
    m.playing_step(&press(&[KEY_ENTER]));
    assert!(m.awaiting_kb_input);
    assert_eq!(m.kb_to_change, game::keybinds::Keybind::Inventory);
    m.playing_step(&press(&[KEY_K]));
    assert_eq!(m.keys.inventory, KEY_K);
    assert_eq!(m.inventory_state, InventoryState::Open { inventory_page: InventoryPage::Items });
}
