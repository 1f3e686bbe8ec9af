use vstd::prelude::*;

use crate::input::{
    key_down, row_at, row_at_exec, volume_level_at, volume_level_at_exec, FrameInput, InputView,
    SLIDER_LEFT, SLIDER_RIGHT,
};
use crate::keybinds::{
    menu_keys_free, rebind_spec, KeyBindings, KeyBindingsView, Keybind, KEY_ENTER, KEY_ESCAPE,
};
use crate::story::StoryPhase;

verus! {

#[derive(Clone, Copy, Debug, PartialEq, Eq, Structural)]
pub enum AudioSettingsState {
    Standard,
    MusicVolume,
    SFXVolume,
    MenuClicksVolume,
}

/// The title screens shown before and between games.
#[derive(Clone, Copy, Debug, PartialEq, Eq, Structural)]
pub enum StartupState {
    Splash,
    MainMenu,
    Settings,
    GameSettings,
    AudioSettings { audio_settings_state: AudioSettingsState },
    VideoSettings,
    ControlsSettings,
    Done,
}

/// The in-game pause menu and its settings pages.
#[derive(Clone, Copy, Debug, PartialEq, Eq, Structural)]
pub enum PauseMenuState {
    Closed,
    Menu,
    Settings,
    AudioSettings { audio_settings_state: AudioSettingsState },
    GameSettings,
    VideoSettings,
    ControlsSettings,
}

#[derive(Clone, Copy, Debug, PartialEq, Eq, Structural)]
pub enum InventoryPage {
    Items,
    Equipment,
    WorldMap,
    EnemyLog,
}

#[derive(Clone, Copy, Debug, PartialEq, Eq, Structural)]
pub enum InventoryState {
    Closed { last_inventory_page: InventoryPage },
    Open { inventory_page: InventoryPage },
}

/// Something for the caller to do with the sound and the process.
#[derive(Clone, Copy, Debug, PartialEq, Eq, Structural)]
pub enum Effect {
    /// Play the menu click once, at this volume (in tenths).
    Click { volume: usize },
    /// Set the menu click's volume (in tenths).
    SetClickVolume { volume: usize },
    /// Quit the program.
    Exit,
}

/// Which set of menus a settings page belongs to.
#[derive(Clone, Copy, Debug, PartialEq, Eq, Structural)]
pub enum Surface {
    Startup,
    Pause,
}

/// A settings page, shared by the title screens and the pause menu.
#[derive(Clone, Copy, Debug, PartialEq, Eq, Structural)]
pub enum Screen {
    Settings,
    Game,
    Audio { audio: AudioSettingsState },
    Video,
    Controls,
}

/// The sound settings: five switches and three volumes (in tenths).
#[derive(Clone, Copy, Debug, PartialEq, Eq, Structural)]
pub struct SoundSettings {
    pub menu_music_settings_toggle: bool,
    pub game_music_settings_toggle: bool,
    pub ambient_sounds_settings_toggle: bool,
    pub footsteps_settings_toggle: bool,
    pub menu_clicks_settings_toggle: bool,
    pub music_volume: usize,
    pub sfx_volume: usize,
    pub menu_clicks_volume: usize,
}

impl SoundSettings {
    /// Every sound on, at full volume.
    pub open spec fn initial() -> SoundSettings {
        SoundSettings {
            menu_music_settings_toggle: true,
            game_music_settings_toggle: true,
            ambient_sounds_settings_toggle: true,
            footsteps_settings_toggle: true,
            menu_clicks_settings_toggle: true,
            music_volume: 10,
            sfx_volume: 10,
            menu_clicks_volume: 10,
        }
    }

    pub fn new() -> (s: Self)
        ensures
            s == SoundSettings::initial(),
    {
        SoundSettings {
            menu_music_settings_toggle: true,
            game_music_settings_toggle: true,
            ambient_sounds_settings_toggle: true,
            footsteps_settings_toggle: true,
            menu_clicks_settings_toggle: true,
            music_volume: 10,
            sfx_volume: 10,
            menu_clicks_volume: 10,
        }
    }
}

/// The player's movement abilities that the game settings switch on and off.
#[derive(Clone, Copy, Debug, PartialEq, Eq, Structural)]
pub struct Abilities {
    pub dash_enabled: bool,
    pub sprint_enabled: bool,
    pub wall_jump_enabled: bool,
    pub double_jump_enabled: bool,
}

impl Abilities {
    /// Every ability enabled.
    pub open spec fn initial() -> Abilities {
        Abilities {
            dash_enabled: true,
            sprint_enabled: true,
            wall_jump_enabled: true,
            double_jump_enabled: true,
        }
    }

    pub fn new() -> (a: Self)
        ensures
            a == Abilities::initial(),
    {
        Abilities {
            dash_enabled: true,
            sprint_enabled: true,
            wall_jump_enabled: true,
            double_jump_enabled: true,
        }
    }
}

/// The state of the menus, settings and inventory screen.
pub struct GameMenus {
    pub startup_state: StartupState,
    pub pause_menu_state: PauseMenuState,
    pub startup_menu_role: usize,
    pub pause_menu_role: usize,
    pub pause_menu_controls_settings_row: usize,
    pub pause_menu_controls_settings_col: usize,
    pub story: StoryPhase,
    pub paused: bool,
    pub sound: SoundSettings,
    pub potential_volume_lvl: usize,
    pub controls_settings_row: usize,
    pub controls_settings_col: usize,
    pub keys: KeyBindings,
    pub awaiting_kb_input: bool,
    pub kb_to_change: Keybind,
    pub inventory_state: InventoryState,
    pub abilities: Abilities,
    /// What the current frame has asked the caller to do.
    pub effects: Vec<Effect>,
}

pub struct MenusView {
    pub startup_state: StartupState,
    pub pause_menu_state: PauseMenuState,
    pub startup_menu_role: usize,
    pub pause_menu_role: usize,
    pub pause_menu_controls_settings_row: usize,
    pub pause_menu_controls_settings_col: usize,
    pub story: StoryPhase,
    pub paused: bool,
    pub sound: SoundSettings,
    pub potential_volume_lvl: usize,
    pub controls_settings_row: usize,
    pub controls_settings_col: usize,
    pub keys: KeyBindingsView,
    pub awaiting_kb_input: bool,
    pub kb_to_change: Keybind,
    pub inventory_state: InventoryState,
    pub abilities: Abilities,
    /// What this frame has asked the caller to do so far.
    pub effects: Seq<Effect>,
}

impl View for GameMenus {
    type V = MenusView;

    open spec fn view(&self) -> MenusView {
        MenusView {
            startup_state: self.startup_state,
            pause_menu_state: self.pause_menu_state,
            startup_menu_role: self.startup_menu_role,
            pause_menu_role: self.pause_menu_role,
            pause_menu_controls_settings_row: self.pause_menu_controls_settings_row,
            pause_menu_controls_settings_col: self.pause_menu_controls_settings_col,
            story: self.story,
            paused: self.paused,
            sound: self.sound,
            potential_volume_lvl: self.potential_volume_lvl,
            controls_settings_row: self.controls_settings_row,
            controls_settings_col: self.controls_settings_col,
            keys: self.keys@,
            awaiting_kb_input: self.awaiting_kb_input,
            kb_to_change: self.kb_to_change,
            inventory_state: self.inventory_state,
            abilities: self.abilities,
            effects: self.effects@,
        }
    }
}

// ---------------------------------------------------------------------------
// The model: every rule is a function from the menus' state and the frame's
// input to the next state (with the effects it asks for appended).
// ---------------------------------------------------------------------------
/// Number of options on each page.
pub open spec fn option_count_startup(st: StartupState) -> usize {
    match st {
        StartupState::MainMenu => 3,
        StartupState::Settings => 5,
        StartupState::GameSettings => 5,
        StartupState::AudioSettings { .. } => 9,
        StartupState::VideoSettings => 3,
        _ => 0,
    }
}

pub open spec fn option_count_pause(st: PauseMenuState) -> usize {
    match st {
        PauseMenuState::Menu => 4,
        PauseMenuState::Settings => 5,
        PauseMenuState::GameSettings => 5,
        PauseMenuState::AudioSettings { .. } => 9,
        PauseMenuState::VideoSettings => 3,
        _ => 0,
    }
}

impl MenusView {
    /// The menus' invariant: each page's highlighted option is one of its
    /// options (the pause menu's stays one of its four while it is closed, and
    /// one of the settings page's five while its controls page is shown),
    /// the key-binding grid cursor is on the grid, volumes are at most 10, the
    /// game is paused exactly while the pause menu is open, the title screens
    /// are done exactly while a game is being played, and no action is bound
    /// to Enter or Escape.
    pub open spec fn wf(self) -> bool {
        &&& (option_count_startup(self.startup_state) > 0 ==> self.startup_menu_role
            < option_count_startup(self.startup_state))
        &&& (option_count_pause(self.pause_menu_state) > 0 ==> self.pause_menu_role
            < option_count_pause(self.pause_menu_state))
        &&& (self.pause_menu_state == PauseMenuState::Closed ==> self.pause_menu_role < 4)
        &&& (self.pause_menu_state == PauseMenuState::ControlsSettings ==> self.pause_menu_role < 5)
        &&& self.controls_settings_row < 6
        &&& self.controls_settings_col < 2
        &&& self.pause_menu_controls_settings_row < 6
        &&& self.pause_menu_controls_settings_col < 2
        &&& self.sound.music_volume <= 10
        &&& self.sound.sfx_volume <= 10
        &&& self.sound.menu_clicks_volume <= 10
        &&& self.potential_volume_lvl <= 10
        &&& (self.paused <==> self.pause_menu_state != PauseMenuState::Closed)
        &&& (self.startup_state == StartupState::Done <==> self.story == StoryPhase::Playing)
        &&& menu_keys_free(self.keys)
    }
}

pub open spec fn confirms(i: InputView) -> bool {
    key_down(i, KEY_ENTER) || i.left_click
}

/// The menu click, when menu clicks are switched on.
pub open spec fn click(s: MenusView) -> MenusView {
    if s.sound.menu_clicks_settings_toggle {
        MenusView { effects: s.effects.push(Effect::Click { volume: s.sound.menu_clicks_volume }), ..s }
    } else {
        s
    }
}

pub open spec fn role_of(s: MenusView, surf: Surface) -> usize {
    match surf {
        Surface::Startup => s.startup_menu_role,
        Surface::Pause => s.pause_menu_role,
    }
}

pub open spec fn with_role(s: MenusView, surf: Surface, r: usize) -> MenusView {
    match surf {
        Surface::Startup => MenusView { startup_menu_role: r, ..s },
        Surface::Pause => MenusView { pause_menu_role: r, ..s },
    }
}

pub open spec fn grid_row(s: MenusView, surf: Surface) -> usize {
    match surf {
        Surface::Startup => s.controls_settings_row,
        Surface::Pause => s.pause_menu_controls_settings_row,
    }
}

pub open spec fn grid_col(s: MenusView, surf: Surface) -> usize {
    match surf {
        Surface::Startup => s.controls_settings_col,
        Surface::Pause => s.pause_menu_controls_settings_col,
    }
}

pub open spec fn with_grid_row(s: MenusView, surf: Surface, r: usize) -> MenusView {
    match surf {
        Surface::Startup => MenusView { controls_settings_row: r, ..s },
        Surface::Pause => MenusView { pause_menu_controls_settings_row: r, ..s },
    }
}

pub open spec fn with_grid_col(s: MenusView, surf: Surface, c: usize) -> MenusView {
    match surf {
        Surface::Startup => MenusView { controls_settings_col: c, ..s },
        Surface::Pause => MenusView { pause_menu_controls_settings_col: c, ..s },
    }
}

/// Shows a settings page of the given set of menus.
pub open spec fn goto(s: MenusView, surf: Surface, scr: Screen) -> MenusView {
    match surf {
        Surface::Startup => MenusView {
            startup_state: match scr {
                Screen::Settings => StartupState::Settings,
                Screen::Game => StartupState::GameSettings,
                Screen::Audio { audio } => StartupState::AudioSettings {
                    audio_settings_state: audio,
                },
                Screen::Video => StartupState::VideoSettings,
                Screen::Controls => StartupState::ControlsSettings,
            },
            ..s
        },
        Surface::Pause => MenusView {
            pause_menu_state: match scr {
                Screen::Settings => PauseMenuState::Settings,
                Screen::Game => PauseMenuState::GameSettings,
                Screen::Audio { audio } => PauseMenuState::AudioSettings {
                    audio_settings_state: audio,
                },
                Screen::Video => PauseMenuState::VideoSettings,
                Screen::Controls => PauseMenuState::ControlsSettings,
            },
            ..s
        },
    }
}

/// Pointing at one of `n` rows, stacked from `top` between `x_lo` and `x_hi`,
/// highlights option `offset + row`.
#[verifier::opaque]
pub open spec fn hover(
    s: MenusView,
    i: InputView,
    surf: Surface,
    x_lo: int,
    x_hi: int,
    top: int,
    n: int,
    offset: usize,
) -> MenusView {
    match i.pointer {
        Some(p) => if x_lo < p.x && p.x < x_hi {
            match row_at(p.y as int, top, n) {
                Some(k) => with_role(s, surf, (offset + k) as usize),
                None => s,
            }
        } else {
            s
        },
        None => s,
    }
}

/// The look-up key moves the highlight up, with a click, wrapping around the
/// `n` options.
#[verifier::opaque]
pub open spec fn nav_up(s: MenusView, i: InputView, surf: Surface, n: usize) -> MenusView {
    if key_down(i, s.keys.look_up) {
        let r = role_of(s, surf);
        with_role(
            click(s),
            surf,
            if r == 0 {
                (n - 1) as usize
            } else {
                (r - 1) as usize
            },
        )
    } else {
        s
    }
}

/// The look-down key moves the highlight down, with a click, wrapping around
/// the `n` options.
#[verifier::opaque]
pub open spec fn nav_down(s: MenusView, i: InputView, surf: Surface, n: usize) -> MenusView {
    if key_down(i, s.keys.look_down) {
        let r = role_of(s, surf);
        with_role(
            click(s),
            surf,
            if r == n - 1 {
                0
            } else {
                (r + 1) as usize
            },
        )
    } else {
        s
    }
}

#[verifier::opaque]
pub open spec fn nav(s: MenusView, i: InputView, surf: Surface, n: usize) -> MenusView {
    nav_down(nav_up(s, i, surf, n), i, surf, n)
}

/// Escape on a title screen, when `surf` is the title screens: a click, then
/// `target` with option `role` highlighted.
#[verifier::opaque]
pub open spec fn startup_escape(s: MenusView, i: InputView, surf: Surface, role: usize, target: StartupState) -> MenusView {
    if surf == Surface::Startup && key_down(i, KEY_ESCAPE) {
        MenusView { startup_state: target, startup_menu_role: role, ..click(s) }
    } else {
        s
    }
}

/// The settings page: game, audio, video, controls, back.
#[verifier::opaque]
pub open spec fn settings_choice(s: MenusView, surf: Surface) -> MenusView {
    let r = role_of(s, surf);
    if r == 0 {
        goto(with_role(s, surf, 0), surf, Screen::Game)
    } else if r == 1 {
        goto(
            with_role(s, surf, 0),
            surf,
            Screen::Audio { audio: AudioSettingsState::Standard },
        )
    } else if r == 2 {
        goto(with_role(s, surf, 0), surf, Screen::Video)
    } else if r == 3 {
        match surf {
            Surface::Startup => goto(with_role(s, surf, 0), surf, Screen::Controls),
            Surface::Pause => goto(s, surf, Screen::Controls),
        }
    } else if r == 4 {
        match surf {
            Surface::Startup => MenusView {
                startup_state: StartupState::MainMenu,
                startup_menu_role: 1,
                ..s
            },
            Surface::Pause => MenusView {
                pause_menu_state: PauseMenuState::Menu,
                pause_menu_role: 1,
                ..s
            },
        }
    } else {
        s
    }
}

#[verifier::opaque]
pub open spec fn settings_page(s: MenusView, i: InputView, surf: Surface) -> MenusView {
    let s1 = hover(s, i, surf, 2780, 10020, 2870, 5, 0);
    let s2 = nav(s1, i, surf, 5);
    let s3 = startup_escape(s2, i, surf, 1, StartupState::MainMenu);
    if confirms(i) {
        settings_choice(click(s3), surf)
    } else {
        s3
    }
}

/// The game page: dash, sprint, wall jump and double jump switches, back.
#[verifier::opaque]
pub open spec fn game_choice(s: MenusView, surf: Surface) -> MenusView {
    let r = role_of(s, surf);
    if r == 0 {
        MenusView { abilities: Abilities { dash_enabled: !s.abilities.dash_enabled, ..s.abilities }, ..s }
    } else if r == 1 {
        MenusView { abilities: Abilities { sprint_enabled: !s.abilities.sprint_enabled, ..s.abilities }, ..s }
    } else if r == 2 {
        MenusView { abilities: Abilities { wall_jump_enabled: !s.abilities.wall_jump_enabled, ..s.abilities }, ..s }
    } else if r == 3 {
        MenusView { abilities: Abilities { double_jump_enabled: !s.abilities.double_jump_enabled, ..s.abilities }, ..s }
    } else if r == 4 {
        goto(with_role(s, surf, 0), surf, Screen::Settings)
    } else {
        s
    }
}

#[verifier::opaque]
pub open spec fn game_page(s: MenusView, i: InputView, surf: Surface) -> MenusView {
    let s1 = hover(s, i, surf, 2780, 10020, 2870, 5, 0);
    let s2 = nav(s1, i, surf, 5);
    let s3 = startup_escape(s2, i, surf, 0, StartupState::Settings);
    if confirms(i) {
        game_choice(click(s3), surf)
    } else {
        s3
    }
}

/// The audio page: five sound switches, three volume sliders, back.
#[verifier::opaque]
pub open spec fn audio_choice(s: MenusView, surf: Surface) -> MenusView {
    let r = role_of(s, surf);
    if r == 0 {
        MenusView { sound: SoundSettings { menu_music_settings_toggle: !s.sound.menu_music_settings_toggle, ..s.sound }, ..s }
    } else if r == 1 {
        MenusView { sound: SoundSettings { game_music_settings_toggle: !s.sound.game_music_settings_toggle, ..s.sound }, ..s }
    } else if r == 2 {
        MenusView { sound: SoundSettings { ambient_sounds_settings_toggle: !s.sound.ambient_sounds_settings_toggle, ..s.sound }, ..s }
    } else if r == 3 {
        MenusView { sound: SoundSettings { footsteps_settings_toggle: !s.sound.footsteps_settings_toggle, ..s.sound }, ..s }
    } else if r == 4 {
        MenusView { sound: SoundSettings { menu_clicks_settings_toggle: !s.sound.menu_clicks_settings_toggle, ..s.sound }, ..s }
    } else if r == 5 {
        goto(s, surf, Screen::Audio { audio: AudioSettingsState::MusicVolume })
    } else if r == 6 {
        goto(s, surf, Screen::Audio { audio: AudioSettingsState::SFXVolume })
    } else if r == 7 {
        goto(s, surf, Screen::Audio { audio: AudioSettingsState::MenuClicksVolume })
    } else if r == 8 {
        goto(with_role(s, surf, 1), surf, Screen::Settings)
    } else {
        s
    }
}

#[verifier::opaque]
pub open spec fn audio_page(s: MenusView, i: InputView, surf: Surface) -> MenusView {
    let s1 = hover(s, i, surf, 2780, 4780, 3970, 4, 5);
    let s2 = hover(s1, i, surf, 2780, 10020, 2070, 5, 0);
    let s3 = nav(s2, i, surf, 9);
    let s4 = startup_escape(s3, i, surf, 1, StartupState::Settings);
    if confirms(i) {
        audio_choice(click(s4), surf)
    } else {
        s4
    }
}

/// The row of a volume slider, in tenths of a pixel.
pub open spec fn slider_top(v: AudioSettingsState) -> int {
    match v {
        AudioSettingsState::MusicVolume => 3970,
        AudioSettingsState::SFXVolume => 4350,
        _ => 4730,
    }
}

pub open spec fn volume_of(s: MenusView, v: AudioSettingsState) -> usize {
    match v {
        AudioSettingsState::MusicVolume => s.sound.music_volume,
        AudioSettingsState::SFXVolume => s.sound.sfx_volume,
        _ => s.sound.menu_clicks_volume,
    }
}

pub open spec fn with_volume(s: MenusView, v: AudioSettingsState, level: usize) -> MenusView {
    match v {
        AudioSettingsState::MusicVolume => MenusView { sound: SoundSettings { music_volume: level, ..s.sound }, ..s },
        AudioSettingsState::SFXVolume => MenusView { sound: SoundSettings { sfx_volume: level, ..s.sound }, ..s },
        _ => MenusView { sound: SoundSettings { menu_clicks_volume: level, ..s.sound }, ..s },
    }
}

pub open spec fn in_slider_row(y: int, v: AudioSettingsState) -> bool {
    slider_top(v) < y && y < slider_top(v) + 380
}

/// Pointing along the slider picks a level.
#[verifier::opaque]
pub open spec fn slider_pick(s: MenusView, i: InputView, v: AudioSettingsState) -> MenusView {
    match i.pointer {
        Some(p) => if in_slider_row(p.y as int, v) {
            match volume_level_at(p.x as int) {
                Some(level) => MenusView { potential_volume_lvl: level, ..s },
                None => s,
            }
        } else {
            s
        },
        None => s,
    }
}

/// A click, with a click sound, sets the volume to the picked level when the
/// pointer is on the slider, and otherwise leaves the slider.
#[verifier::opaque]
pub open spec fn slider_press(s: MenusView, i: InputView, surf: Surface, v: AudioSettingsState) -> MenusView {
    match i.pointer {
        Some(p) => if i.left_click {
            let c = click(s);
            if SLIDER_LEFT < p.x && p.x < SLIDER_RIGHT && in_slider_row(p.y as int, v) {
                with_volume(c, v, c.potential_volume_lvl)
            } else {
                goto(c, surf, Screen::Audio { audio: AudioSettingsState::Standard })
            }
        } else {
            s
        },
        None => s,
    }
}

/// The pointer picks a level on the slider, and a click sets it or leaves.
#[verifier::opaque]
pub open spec fn slider_pointer(s: MenusView, i: InputView, surf: Surface, v: AudioSettingsState) -> MenusView {
    slider_press(slider_pick(s, i, v), i, surf, v)
}

/// A volume change of the menu click also sets the click's volume.
#[verifier::opaque]
pub open spec fn announce_volume(s: MenusView, v: AudioSettingsState) -> MenusView {
    if v == AudioSettingsState::MenuClicksVolume {
        MenusView {
            effects: s.effects.push(Effect::SetClickVolume { volume: s.sound.menu_clicks_volume }),
            ..s
        }
    } else {
        s
    }
}

/// The move-right key raises the volume by one, up to 10, with a click.
#[verifier::opaque]
pub open spec fn slider_raise(s: MenusView, i: InputView, v: AudioSettingsState) -> MenusView {
    if key_down(i, s.keys.move_right) {
        let c = click(s);
        if volume_of(c, v) < 10 {
            announce_volume(with_volume(c, v, (volume_of(c, v) + 1) as usize), v)
        } else {
            c
        }
    } else {
        s
    }
}

/// The move-left key lowers the volume by one, down to 0, with a click.
#[verifier::opaque]
pub open spec fn slider_lower(s: MenusView, i: InputView, v: AudioSettingsState) -> MenusView {
    if key_down(i, s.keys.move_left) {
        let c = click(s);
        if volume_of(c, v) > 0 {
            announce_volume(with_volume(c, v, (volume_of(c, v) - 1) as usize), v)
        } else {
            c
        }
    } else {
        s
    }
}

/// Enter (and Escape on a title screen) leaves the slider, with a click.
#[verifier::opaque]
pub open spec fn slider_leave(s: MenusView, i: InputView, surf: Surface) -> MenusView {
    let s1 = if surf == Surface::Startup && key_down(i, KEY_ESCAPE) {
        goto(click(s), surf, Screen::Audio { audio: AudioSettingsState::Standard })
    } else {
        s
    };
    if key_down(i, KEY_ENTER) {
        goto(click(s1), surf, Screen::Audio { audio: AudioSettingsState::Standard })
    } else {
        s1
    }
}

#[verifier::opaque]
pub open spec fn slider_keys(s: MenusView, i: InputView, surf: Surface, v: AudioSettingsState) -> MenusView {
    slider_leave(slider_lower(slider_raise(s, i, v), i, v), i, surf)
}

#[verifier::opaque]
pub open spec fn slider_page(s: MenusView, i: InputView, surf: Surface, v: AudioSettingsState) -> MenusView {
    slider_keys(slider_pointer(s, i, surf, v), i, surf, v)
}

/// The video page: resolution, brightness (neither does anything yet), back.
#[verifier::opaque]
pub open spec fn video_page(s: MenusView, i: InputView, surf: Surface) -> MenusView {
    let s1 = hover(s, i, surf, 2780, 10020, 3270, 3, 0);
    let s2 = nav(s1, i, surf, 3);
    let s3 = startup_escape(s2, i, surf, 1, StartupState::Settings);
    if confirms(i) {
        let c = click(s3);
        if role_of(c, surf) == 2 {
            goto(with_role(c, surf, 2), surf, Screen::Settings)
        } else {
            c
        }
    } else {
        s3
    }
}

/// Leaving the controls page: back to settings with "Controls" highlighted.
#[verifier::opaque]
pub open spec fn leave_controls(s: MenusView, surf: Surface) -> MenusView {
    let s1 = with_grid_col(with_grid_row(with_role(s, surf, 3), surf, 0), surf, 0);
    goto(MenusView { kb_to_change: Keybind::Unbound, ..s1 }, surf, Screen::Settings)
}

/// The action in each cell of the controls grid.
#[verifier::opaque]
pub open spec fn grid_action(col: usize, row: usize) -> Keybind {
    if col == 0 {
        if row == 0 {
            Keybind::MoveLeft
        } else if row == 1 {
            Keybind::MoveRight
        } else if row == 2 {
            Keybind::LookUp
        } else if row == 3 {
            Keybind::LookDown
        } else {
            Keybind::Jump
        }
    } else {
        if row == 0 {
            Keybind::DashSprint
        } else if row == 1 {
            Keybind::MeleeAttack
        } else if row == 2 {
            Keybind::RangedAttack
        } else if row == 3 {
            Keybind::Interact
        } else {
            Keybind::Inventory
        }
    }
}

#[verifier::opaque]
pub open spec fn controls_hover(s: MenusView, i: InputView, surf: Surface) -> MenusView {
    match i.pointer {
        Some(p) => {
            let s1 = if 2670 < p.y && p.y < 4950 {
                if 2780 < p.x && p.x < 6400 {
                    with_grid_col(s, surf, 0)
                } else if 6400 <= p.x && p.x < 10020 {
                    with_grid_col(s, surf, 1)
                } else {
                    s
                }
            } else {
                s
            };
            if 2780 < p.x && p.x < 10020 {
                match row_at(p.y as int, 2670, 6) {
                    Some(k) => with_grid_row(s1, surf, k as usize),
                    None => s1,
                }
            } else {
                s1
            }
        },
        None => s,
    }
}

/// Up and down move through the six rows of the controls grid, wrapping.
#[verifier::opaque]
pub open spec fn grid_vertical(s: MenusView, i: InputView, surf: Surface) -> MenusView {
    let s1 = if key_down(i, s.keys.look_up) {
        let r = grid_row(s, surf);
        with_grid_row(
            click(s),
            surf,
            if r == 0 {
                5
            } else {
                (r - 1) as usize
            },
        )
    } else {
        s
    };
    if key_down(i, s1.keys.look_down) {
        let r = grid_row(s1, surf);
        with_grid_row(
            click(s1),
            surf,
            if r == 5 {
                0
            } else {
                (r + 1) as usize
            },
        )
    } else {
        s1
    }
}

/// Right and left switch between the two columns of the controls grid.
#[verifier::opaque]
pub open spec fn grid_horizontal(s: MenusView, i: InputView, surf: Surface) -> MenusView {
    let s1 = if key_down(i, s.keys.move_right) {
        let c = grid_col(s, surf);
        with_grid_col(
            click(s),
            surf,
            if c == 1 {
                0
            } else {
                (c + 1) as usize
            },
        )
    } else {
        s
    };
    if key_down(i, s1.keys.move_left) {
        let c = grid_col(s1, surf);
        with_grid_col(
            click(s1),
            surf,
            if c == 0 {
                1
            } else {
                (c - 1) as usize
            },
        )
    } else {
        s1
    }
}

/// Up and down move through the six rows, wrapping; off the back row, right
/// and left switch between the two columns.
#[verifier::opaque]
pub open spec fn controls_keys(s: MenusView, i: InputView, surf: Surface) -> MenusView {
    let s1 = grid_vertical(s, i, surf);
    if grid_row(s1, surf) != 5 {
        grid_horizontal(s1, i, surf)
    } else {
        s1
    }
}

/// Choosing a grid cell waits for the key to bind to its action; the back row
/// leaves the page.
#[verifier::opaque]
pub open spec fn controls_choice(s: MenusView, surf: Surface) -> MenusView {
    if grid_row(s, surf) == 5 {
        leave_controls(s, surf)
    } else if grid_row(s, surf) < 5 {
        MenusView {
            awaiting_kb_input: true,
            kb_to_change: grid_action(grid_col(s, surf), grid_row(s, surf)),
            ..s
        }
    } else {
        s
    }
}

/// While waiting for a key: the last key pressed this frame is bound to the
/// chosen action, unless it is Enter or Escape.
#[verifier::opaque]
pub open spec fn capture_key(s: MenusView, last_key: Option<u16>) -> MenusView {
    match last_key {
        None => s,
        Some(key) => {
            let s1 = MenusView { awaiting_kb_input: false, ..s };
            if key == KEY_ENTER || key == KEY_ESCAPE {
                s1
            } else {
                MenusView { keys: rebind_spec(s1.keys, s1.kb_to_change, key), ..s1 }
            }
        },
    }
}

#[verifier::opaque]
pub open spec fn controls_page(s: MenusView, i: InputView, surf: Surface) -> MenusView {
    if !s.awaiting_kb_input {
        let s1 = controls_keys(controls_hover(s, i, surf), i, surf);
        let s2 = if surf == Surface::Startup && key_down(i, KEY_ESCAPE) {
            leave_controls(click(s1), surf)
        } else {
            s1
        };
        if confirms(i) {
            controls_choice(click(s2), surf)
        } else {
            s2
        }
    } else {
        let s1 = if key_down(i, KEY_ESCAPE) || key_down(i, KEY_ENTER) || i.left_click {
            MenusView { awaiting_kb_input: false, ..click(s) }
        } else {
            s
        };
        capture_key(s1, i.last_key)
    }
}

/// The splash screen: any key or mouse button opens the main menu.
#[verifier::opaque]
pub open spec fn splash_page(s: MenusView, i: InputView) -> MenusView {
    if i.last_key is Some || i.left_click || i.right_click {
        MenusView { startup_menu_role: 0, startup_state: StartupState::MainMenu, ..click(s) }
    } else {
        s
    }
}

/// Choosing on the main menu: play, settings, exit.
#[verifier::opaque]
pub open spec fn main_menu_choice(c: MenusView) -> MenusView {
    if c.startup_menu_role == 0 {
        MenusView {
            startup_menu_role: 0,
            startup_state: StartupState::Done,
            story: StoryPhase::Playing,
            ..c
        }
    } else if c.startup_menu_role == 1 {
        MenusView { startup_menu_role: 0, startup_state: StartupState::Settings, ..c }
    } else if c.startup_menu_role == 2 {
        MenusView { effects: c.effects.push(Effect::Exit), ..c }
    } else {
        c
    }
}

/// The main menu: play, settings, exit.
#[verifier::opaque]
pub open spec fn main_menu_page(s: MenusView, i: InputView) -> MenusView {
    let s1 = hover(s, i, Surface::Startup, 2780, 10020, 3270, 3, 0);
    let s2 = nav(s1, i, Surface::Startup, 3);
    let s3 = startup_escape(s2, i, Surface::Startup, 0, StartupState::Splash);
    if confirms(i) {
        main_menu_choice(click(s3))
    } else {
        s3
    }
}

/// One frame of the title screens.
#[verifier::opaque]
pub open spec fn startup_frame(s: MenusView, i: InputView) -> MenusView {
    match s.startup_state {
        StartupState::Splash => splash_page(s, i),
        StartupState::MainMenu => main_menu_page(s, i),
        StartupState::Settings => settings_page(s, i, Surface::Startup),
        StartupState::GameSettings => game_page(s, i, Surface::Startup),
        StartupState::AudioSettings { audio_settings_state } => match audio_settings_state {
            AudioSettingsState::Standard => audio_page(s, i, Surface::Startup),
            v => slider_page(s, i, Surface::Startup, v),
        },
        StartupState::VideoSettings => video_page(s, i, Surface::Startup),
        StartupState::ControlsSettings => controls_page(s, i, Surface::Startup),
        StartupState::Done => s,
    }
}

/// Escape during play: opens the pause menu (or closes the inventory), and
/// inside the pause menu goes back one page.
#[verifier::opaque]
pub open spec fn pause_escape(s: MenusView, i: InputView) -> MenusView {
    if key_down(i, KEY_ESCAPE) {
        let c = click(s);
        match c.pause_menu_state {
            PauseMenuState::Closed => match c.inventory_state {
                InventoryState::Closed { .. } => MenusView {
                    paused: true,
                    pause_menu_role: 0,
                    pause_menu_state: PauseMenuState::Menu,
                    ..c
                },
                InventoryState::Open { inventory_page } => MenusView {
                    inventory_state: InventoryState::Closed { last_inventory_page: inventory_page },
                    ..c
                },
            },
            PauseMenuState::Menu => MenusView {
                pause_menu_role: 0,
                paused: false,
                pause_menu_state: PauseMenuState::Closed,
                ..c
            },
            PauseMenuState::Settings => MenusView {
                pause_menu_role: 1,
                pause_menu_state: PauseMenuState::Menu,
                ..c
            },
            PauseMenuState::GameSettings => MenusView {
                pause_menu_role: 0,
                pause_menu_state: PauseMenuState::Settings,
                ..c
            },
            PauseMenuState::AudioSettings { audio_settings_state } => match audio_settings_state {
                AudioSettingsState::Standard => MenusView {
                    pause_menu_role: 1,
                    pause_menu_state: PauseMenuState::Settings,
                    ..c
                },
                _ => MenusView {
                    pause_menu_state: PauseMenuState::AudioSettings {
                        audio_settings_state: AudioSettingsState::Standard,
                    },
                    ..c
                },
            },
            PauseMenuState::VideoSettings => MenusView {
                pause_menu_role: 2,
                pause_menu_state: PauseMenuState::Settings,
                ..c
            },
            PauseMenuState::ControlsSettings => MenusView {
                pause_menu_role: 3,
                pause_menu_state: PauseMenuState::Settings,
                pause_menu_controls_settings_row: 0,
                kb_to_change: Keybind::Unbound,
                ..c
            },
        }
    } else {
        s
    }
}

/// Choosing on the pause menu: resume, settings, back to the main menu, exit.
#[verifier::opaque]
pub open spec fn pause_choice(c: MenusView) -> MenusView {
    if c.pause_menu_role == 0 {
        MenusView { paused: false, pause_menu_state: PauseMenuState::Closed, ..c }
    } else if c.pause_menu_role == 1 {
        MenusView { pause_menu_state: PauseMenuState::Settings, pause_menu_role: 0, ..c }
    } else if c.pause_menu_role == 2 {
        MenusView {
            startup_state: StartupState::MainMenu,
            pause_menu_state: PauseMenuState::Closed,
            pause_menu_role: 0,
            startup_menu_role: 0,
            paused: false,
            story: StoryPhase::NotPlaying,
            ..c
        }
    } else if c.pause_menu_role == 3 {
        MenusView { effects: c.effects.push(Effect::Exit), ..c }
    } else {
        c
    }
}

/// The pause menu: resume, settings, back to the main menu, exit.
#[verifier::opaque]
pub open spec fn pause_main_page(s: MenusView, i: InputView) -> MenusView {
    let s1 = hover(s, i, Surface::Pause, 3380, 9420, 3070, 4, 0);
    let s2 = nav(s1, i, Surface::Pause, 4);
    if confirms(i) {
        pause_choice(click(s2))
    } else {
        s2
    }
}

#[verifier::opaque]
pub open spec fn pause_frame(s: MenusView, i: InputView) -> MenusView {
    match s.pause_menu_state {
        PauseMenuState::Menu => pause_main_page(s, i),
        PauseMenuState::Settings => settings_page(s, i, Surface::Pause),
        PauseMenuState::GameSettings => game_page(s, i, Surface::Pause),
        PauseMenuState::AudioSettings { audio_settings_state } => match audio_settings_state {
            AudioSettingsState::Standard => audio_page(s, i, Surface::Pause),
            v => slider_page(s, i, Surface::Pause, v),
        },
        PauseMenuState::VideoSettings => video_page(s, i, Surface::Pause),
        PauseMenuState::ControlsSettings => controls_page(s, i, Surface::Pause),
        PauseMenuState::Closed => s,
    }
}

pub open spec fn next_page(p: InventoryPage) -> InventoryPage {
    match p {
        InventoryPage::Items => InventoryPage::Equipment,
        InventoryPage::Equipment => InventoryPage::WorldMap,
        InventoryPage::WorldMap => InventoryPage::EnemyLog,
        InventoryPage::EnemyLog => InventoryPage::Items,
    }
}

pub open spec fn previous_page(p: InventoryPage) -> InventoryPage {
    match p {
        InventoryPage::Items => InventoryPage::EnemyLog,
        InventoryPage::Equipment => InventoryPage::Items,
        InventoryPage::WorldMap => InventoryPage::Equipment,
        InventoryPage::EnemyLog => InventoryPage::WorldMap,
    }
}

/// The inventory key opens the inventory on the page it was closed on, or
/// closes it, with a click.
#[verifier::opaque]
pub open spec fn inventory_toggle(s: MenusView, i: InputView) -> MenusView {
    if key_down(i, s.keys.inventory) {
        let c = click(s);
        match c.inventory_state {
            InventoryState::Closed { last_inventory_page } => MenusView {
                inventory_state: InventoryState::Open { inventory_page: last_inventory_page },
                ..c
            },
            InventoryState::Open { inventory_page } => MenusView {
                inventory_state: InventoryState::Closed { last_inventory_page: inventory_page },
                ..c
            },
        }
    } else {
        s
    }
}

/// While the inventory is open, right and left turn its pages (in a cycle),
/// each with a click and each deciding from the page shown before either was
/// applied.
#[verifier::opaque]
pub open spec fn inventory_turn(s: MenusView, i: InputView) -> MenusView {
    match s.inventory_state {
        InventoryState::Open { inventory_page } => {
            let s1 = if key_down(i, s.keys.move_right) {
                MenusView {
                    inventory_state: InventoryState::Open { inventory_page: next_page(inventory_page) },
                    ..click(s)
                }
            } else {
                s
            };
            if key_down(i, s1.keys.move_left) {
                MenusView {
                    inventory_state: InventoryState::Open {
                        inventory_page: previous_page(inventory_page),
                    },
                    ..click(s1)
                }
            } else {
                s1
            }
        },
        InventoryState::Closed { .. } => s,
    }
}

#[verifier::opaque]
pub open spec fn inventory_frame(s: MenusView, i: InputView) -> MenusView {
    inventory_turn(inventory_toggle(s, i), i)
}

/// The menu part of a frame of play: Escape, then the pause menu while paused,
/// then the inventory.
#[verifier::opaque]
pub open spec fn playing_frame(s: MenusView, i: InputView) -> MenusView {
    let s1 = pause_escape(s, i);
    let s2 = if s1.paused {
        pause_frame(s1, i)
    } else {
        s1
    };
    inventory_frame(s2, i)
}

/// A frame starts with no effects asked for.
pub open spec fn fresh(s: MenusView) -> MenusView {
    MenusView { effects: Seq::empty(), ..s }
}

} // verus!
