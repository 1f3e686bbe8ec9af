use vstd::prelude::*;

use crate::input::{row_at_exec, volume_level_at_exec, FrameInput, SLIDER_LEFT, SLIDER_RIGHT};
use crate::keybinds::{default_bindings, KeyBindings, KeyBindingsView, Keybind, KEY_ENTER, KEY_ESCAPE};
use crate::menus::{
    grid_action, slider_pick, slider_press, grid_horizontal, grid_vertical, inventory_toggle, inventory_turn, main_menu_choice,
    nav_down, nav_up, pause_choice, slider_leave, slider_lower, slider_raise, announce_volume, audio_choice, audio_page, capture_key, click, confirms, controls_choice,
    controls_hover, controls_keys, controls_page, fresh, game_choice, game_page, goto, grid_col,
    grid_row, hover, inventory_frame, leave_controls, main_menu_page, nav, option_count_pause, option_count_startup,
    pause_escape, pause_frame, pause_main_page, playing_frame, role_of, settings_choice,
    settings_page, slider_keys, slider_page, slider_pointer, splash_page, startup_escape,
    startup_frame, video_page, volume_of, with_grid_col, with_grid_row, with_role, with_volume,
    Abilities, AudioSettingsState, Effect, GameMenus, SoundSettings, InventoryPage, InventoryState, MenusView,
    PauseMenuState, Screen, StartupState, Surface,
};
use crate::menu_laws::{lemma_playing_frame_keeps_wf, lemma_startup_frame_keeps_wf};
use crate::story::StoryPhase;

verus! {

/// The menus when the game starts: the splash screen, every sound switched on
/// at full volume, every movement ability enabled, the default key bindings.
pub open spec fn initial_menus(keys: KeyBindingsView) -> MenusView {
    MenusView {
        startup_state: StartupState::Splash,
        pause_menu_state: PauseMenuState::Closed,
        startup_menu_role: 0,
        pause_menu_role: 0,
        pause_menu_controls_settings_row: 0,
        pause_menu_controls_settings_col: 0,
        story: StoryPhase::NotPlaying,
        paused: false,
        sound: SoundSettings::initial(),
        potential_volume_lvl: 0,
        controls_settings_row: 0,
        controls_settings_col: 0,
        keys,
        awaiting_kb_input: false,
        kb_to_change: Keybind::Unbound,
        inventory_state: InventoryState::Closed { last_inventory_page: InventoryPage::Items },
        abilities: Abilities::initial(),
        effects: Seq::empty(),
    }
}

impl GameMenus {
    pub fn new() -> (m: Self)
        ensures
            m@ == initial_menus(default_bindings()),
            m@.wf(),
    {
        GameMenus {
            startup_state: StartupState::Splash,
            pause_menu_state: PauseMenuState::Closed,
            startup_menu_role: 0,
            pause_menu_role: 0,
            pause_menu_controls_settings_row: 0,
            pause_menu_controls_settings_col: 0,
            story: StoryPhase::new_game(),
            paused: false,
            sound: SoundSettings::new(),
            potential_volume_lvl: 0,
            controls_settings_row: 0,
            controls_settings_col: 0,
            keys: KeyBindings::new(),
            awaiting_kb_input: false,
            kb_to_change: Keybind::Unbound,
            inventory_state: InventoryState::Closed { last_inventory_page: InventoryPage::Items },
            abilities: Abilities::new(),
            effects: Vec::new(),
        }
    }

    /// Whether the title screens have handed over to play.
    pub fn startup_done(&self) -> (b: bool)
        ensures
            b == (self.startup_state == StartupState::Done),
    {
        match self.startup_state {
            StartupState::Done => true,
            _ => false,
        }
    }

    fn click(&mut self)
        ensures
            final(self)@ == click(old(self)@),
    {
        if self.sound.menu_clicks_settings_toggle {
            self.effects.push(Effect::Click { volume: self.sound.menu_clicks_volume });
        }
    }

    fn push_effect(&mut self, e: Effect)
        ensures
            final(self)@ == (MenusView { effects: old(self)@.effects.push(e), ..old(self)@ }),
    {
        self.effects.push(e);
    }

    fn role(&self, surf: Surface) -> (r: usize)
        ensures
            r == role_of(self@, surf),
    {
        match surf {
            Surface::Startup => self.startup_menu_role,
            Surface::Pause => self.pause_menu_role,
        }
    }

    fn set_role(&mut self, surf: Surface, r: usize)
        ensures
            final(self)@ == with_role(old(self)@, surf, r),
    {
        match surf {
            Surface::Startup => self.startup_menu_role = r,
            Surface::Pause => self.pause_menu_role = r,
        }
    }

    fn row(&self, surf: Surface) -> (r: usize)
        ensures
            r == grid_row(self@, surf),
    {
        match surf {
            Surface::Startup => self.controls_settings_row,
            Surface::Pause => self.pause_menu_controls_settings_row,
        }
    }

    fn col(&self, surf: Surface) -> (c: usize)
        ensures
            c == grid_col(self@, surf),
    {
        match surf {
            Surface::Startup => self.controls_settings_col,
            Surface::Pause => self.pause_menu_controls_settings_col,
        }
    }

    fn set_row(&mut self, surf: Surface, r: usize)
        ensures
            final(self)@ == with_grid_row(old(self)@, surf, r),
    {
        match surf {
            Surface::Startup => self.controls_settings_row = r,
            Surface::Pause => self.pause_menu_controls_settings_row = r,
        }
    }

    fn set_col(&mut self, surf: Surface, c: usize)
        ensures
            final(self)@ == with_grid_col(old(self)@, surf, c),
    {
        match surf {
            Surface::Startup => self.controls_settings_col = c,
            Surface::Pause => self.pause_menu_controls_settings_col = c,
        }
    }

    fn goto(&mut self, surf: Surface, scr: Screen)
        ensures
            final(self)@ == goto(old(self)@, surf, scr),
    {
        match surf {
            Surface::Startup => {
                self.startup_state =
                match scr {
                    Screen::Settings => StartupState::Settings,
                    Screen::Game => StartupState::GameSettings,
                    Screen::Audio { audio } => StartupState::AudioSettings {
                        audio_settings_state: audio,
                    },
                    Screen::Video => StartupState::VideoSettings,
                    Screen::Controls => StartupState::ControlsSettings,
                };
            },
            Surface::Pause => {
                self.pause_menu_state =
                match scr {
                    Screen::Settings => PauseMenuState::Settings,
                    Screen::Game => PauseMenuState::GameSettings,
                    Screen::Audio { audio } => PauseMenuState::AudioSettings {
                        audio_settings_state: audio,
                    },
                    Screen::Video => PauseMenuState::VideoSettings,
                    Screen::Controls => PauseMenuState::ControlsSettings,
                };
            },
        }
    }

    fn hover(
        &mut self,
        i: &FrameInput,
        surf: Surface,
        x_lo: i32,
        x_hi: i32,
        top: i32,
        n: i32,
        offset: usize,
    )
        requires
            0 <= top <= 100_000,
            0 < n <= 100,
            offset <= 100,
        ensures
            final(self)@ == hover(
                old(self)@,
                i@,
                surf,
                x_lo as int,
                x_hi as int,
                top as int,
                n as int,
                offset,
            ),
            role_of(final(self)@, surf) == role_of(old(self)@, surf) || (offset <= role_of(
                final(self)@,
                surf,
            ) < offset + n),
    {
        proof {
            reveal(hover);
        }
        match i.pointer {
            Some(p) => {
                let inside = x_lo < p.x && p.x < x_hi;
                if inside {
                    match row_at_exec(p.y, top, n) {
                        Some(k) => self.set_role(surf, offset + k as usize),
                        None => {},
                    }
                }
            },
            None => {},
        }
    }

    fn nav_up(&mut self, i: &FrameInput, surf: Surface, n: usize)
        requires
            0 < n,
            role_of(old(self)@, surf) < n,
        ensures
            final(self)@ == nav_up(old(self)@, i@, surf, n),
            role_of(final(self)@, surf) < n,
    {
        proof {
            reveal(nav_up);
        }
        if i.is_pressed(self.keys.look_up) {
            let r = self.role(surf);
            let next = if r == 0 {
                n - 1
            } else {
                r - 1
            };
            self.click();
            self.set_role(surf, next);
        }
    }

    fn nav_down(&mut self, i: &FrameInput, surf: Surface, n: usize)
        requires
            0 < n,
            role_of(old(self)@, surf) < n,
        ensures
            final(self)@ == nav_down(old(self)@, i@, surf, n),
            role_of(final(self)@, surf) < n,
    {
        proof {
            reveal(nav_down);
        }
        if i.is_pressed(self.keys.look_down) {
            let r = self.role(surf);
            let next = if r == n - 1 {
                0
            } else {
                r + 1
            };
            self.click();
            self.set_role(surf, next);
        }
    }

    fn nav(&mut self, i: &FrameInput, surf: Surface, n: usize)
        requires
            0 < n,
            role_of(old(self)@, surf) < n,
        ensures
            final(self)@ == nav(old(self)@, i@, surf, n),
            role_of(final(self)@, surf) < n,
    {
        proof {
            reveal(nav);
        }
        self.nav_up(i, surf, n);
        self.nav_down(i, surf, n);
    }

    fn startup_escape(&mut self, i: &FrameInput, surf: Surface, role: usize, target: StartupState)
        ensures
            final(self)@ == startup_escape(old(self)@, i@, surf, role, target),
    {
        proof {
            reveal(startup_escape);
        }
        let escape = surf == Surface::Startup && i.is_pressed(KEY_ESCAPE);
        if escape {
            self.click();
            self.startup_state = target;
            self.startup_menu_role = role;
        }
    }

    fn confirms(&self, i: &FrameInput) -> (b: bool)
        ensures
            b == confirms(i@),
    {
        i.is_pressed(KEY_ENTER) || i.left_click
    }

    fn settings_choice(&mut self, surf: Surface)
        ensures
            final(self)@ == settings_choice(old(self)@, surf),
    {
        proof {
            reveal(settings_choice);
        }
        let r = self.role(surf);
        if r == 0 {
            self.set_role(surf, 0);
            self.goto(surf, Screen::Game);
        } else if r == 1 {
            self.set_role(surf, 0);
            self.goto(surf, Screen::Audio { audio: AudioSettingsState::Standard });
        } else if r == 2 {
            self.set_role(surf, 0);
            self.goto(surf, Screen::Video);
        } else if r == 3 {
            if surf == Surface::Startup {
                self.set_role(surf, 0);
            }
            self.goto(surf, Screen::Controls);
        } else if r == 4 {
            match surf {
                Surface::Startup => {
                    self.startup_state = StartupState::MainMenu;
                    self.startup_menu_role = 1;
                },
                Surface::Pause => {
                    self.pause_menu_state = PauseMenuState::Menu;
                    self.pause_menu_role = 1;
                },
            }
        }
    }

    fn settings_page(&mut self, i: &FrameInput, surf: Surface)
        requires
            role_of(old(self)@, surf) < 5,
        ensures
            final(self)@ == settings_page(old(self)@, i@, surf),
    {
        proof {
            reveal(settings_page);
        }
        self.hover(i, surf, 2780, 10020, 2870, 5, 0);
        self.nav(i, surf, 5);
        self.startup_escape(i, surf, 1, StartupState::MainMenu);
        if self.confirms(i) {
            self.click();
            self.settings_choice(surf);
        }
    }

    fn game_choice(&mut self, surf: Surface)
        ensures
            final(self)@ == game_choice(old(self)@, surf),
    {
        proof {
            reveal(game_choice);
        }
        let r = self.role(surf);
        if r == 0 {
            self.abilities.dash_enabled = !self.abilities.dash_enabled;
        } else if r == 1 {
            self.abilities.sprint_enabled = !self.abilities.sprint_enabled;
        } else if r == 2 {
            self.abilities.wall_jump_enabled = !self.abilities.wall_jump_enabled;
        } else if r == 3 {
            self.abilities.double_jump_enabled = !self.abilities.double_jump_enabled;
        } else if r == 4 {
            self.set_role(surf, 0);
            self.goto(surf, Screen::Settings);
        }
    }

    fn game_page(&mut self, i: &FrameInput, surf: Surface)
        requires
            role_of(old(self)@, surf) < 5,
        ensures
            final(self)@ == game_page(old(self)@, i@, surf),
    {
        proof {
            reveal(game_page);
        }
        self.hover(i, surf, 2780, 10020, 2870, 5, 0);
        self.nav(i, surf, 5);
        self.startup_escape(i, surf, 0, StartupState::Settings);
        if self.confirms(i) {
            self.click();
            self.game_choice(surf);
        }
    }

    fn audio_choice(&mut self, surf: Surface)
        ensures
            final(self)@ == audio_choice(old(self)@, surf),
    {
        proof {
            reveal(audio_choice);
        }
        let r = self.role(surf);
        if r == 0 {
            self.sound.menu_music_settings_toggle = !self.sound.menu_music_settings_toggle;
        } else if r == 1 {
            self.sound.game_music_settings_toggle = !self.sound.game_music_settings_toggle;
        } else if r == 2 {
            self.sound.ambient_sounds_settings_toggle = !self.sound.ambient_sounds_settings_toggle;
        } else if r == 3 {
            self.sound.footsteps_settings_toggle = !self.sound.footsteps_settings_toggle;
        } else if r == 4 {
            self.sound.menu_clicks_settings_toggle = !self.sound.menu_clicks_settings_toggle;
        } else if r == 5 {
            self.goto(surf, Screen::Audio { audio: AudioSettingsState::MusicVolume });
        } else if r == 6 {
            self.goto(surf, Screen::Audio { audio: AudioSettingsState::SFXVolume });
        } else if r == 7 {
            self.goto(surf, Screen::Audio { audio: AudioSettingsState::MenuClicksVolume });
        } else if r == 8 {
            self.set_role(surf, 1);
            self.goto(surf, Screen::Settings);
        }
    }

    fn audio_page(&mut self, i: &FrameInput, surf: Surface)
        requires
            role_of(old(self)@, surf) < 9,
        ensures
            final(self)@ == audio_page(old(self)@, i@, surf),
    {
        proof {
            reveal(audio_page);
        }
        self.hover(i, surf, 2780, 4780, 3970, 4, 5);
        self.hover(i, surf, 2780, 10020, 2070, 5, 0);
        self.nav(i, surf, 9);
        self.startup_escape(i, surf, 1, StartupState::Settings);
        if self.confirms(i) {
            self.click();
            self.audio_choice(surf);
        }
    }

    fn volume(&self, v: AudioSettingsState) -> (level: usize)
        ensures
            level == volume_of(self@, v),
    {
        match v {
            AudioSettingsState::MusicVolume => self.sound.music_volume,
            AudioSettingsState::SFXVolume => self.sound.sfx_volume,
            _ => self.sound.menu_clicks_volume,
        }
    }

    fn set_volume(&mut self, v: AudioSettingsState, level: usize)
        ensures
            final(self)@ == with_volume(old(self)@, v, level),
    {
        match v {
            AudioSettingsState::MusicVolume => self.sound.music_volume = level,
            AudioSettingsState::SFXVolume => self.sound.sfx_volume = level,
            _ => self.sound.menu_clicks_volume = level,
        }
    }

    fn announce_volume(&mut self, v: AudioSettingsState)
        ensures
            final(self)@ == announce_volume(old(self)@, v),
    {
        proof {
            reveal(announce_volume);
        }
        if v == AudioSettingsState::MenuClicksVolume {
            self.effects.push(Effect::SetClickVolume { volume: self.sound.menu_clicks_volume });
        }
    }

    fn slider_pick(&mut self, i: &FrameInput, v: AudioSettingsState)
        ensures
            final(self)@ == slider_pick(old(self)@, i@, v),
    {
        proof {
            reveal(slider_pick);
        }
        match i.pointer {
            Some(p) => {
                let top: i32 = match v {
                    AudioSettingsState::MusicVolume => 3970,
                    AudioSettingsState::SFXVolume => 4350,
                    _ => 4730,
                };
                let in_row = top < p.y && (p.y as i64) < (top as i64) + 380;
                if in_row {
                    match volume_level_at_exec(p.x) {
                        Some(l) => self.potential_volume_lvl = l,
                        None => {},
                    }
                }
            },
            None => {},
        }
    }

    fn slider_press(&mut self, i: &FrameInput, surf: Surface, v: AudioSettingsState)
        ensures
            final(self)@ == slider_press(old(self)@, i@, surf, v),
    {
        proof {
            reveal(slider_press);
        }
        match i.pointer {
            Some(p) => {
                if i.left_click {
                    let top: i32 = match v {
                        AudioSettingsState::MusicVolume => 3970,
                        AudioSettingsState::SFXVolume => 4350,
                        _ => 4730,
                    };
                    let on_slider = SLIDER_LEFT < p.x && p.x < SLIDER_RIGHT && top < p.y && (p.y
                        as i64) < (top as i64) + 380;
                    self.click();
                    if on_slider {
                        let l = self.potential_volume_lvl;
                        self.set_volume(v, l);
                    } else {
                        self.goto(surf, Screen::Audio { audio: AudioSettingsState::Standard });
                    }
                }
            },
            None => {},
        }
    }

    fn slider_pointer(&mut self, i: &FrameInput, surf: Surface, v: AudioSettingsState)
        ensures
            final(self)@ == slider_pointer(old(self)@, i@, surf, v),
    {
        proof {
            reveal(slider_pointer);
        }
        self.slider_pick(i, v);
        self.slider_press(i, surf, v);
    }

    fn slider_raise(&mut self, i: &FrameInput, v: AudioSettingsState)
        ensures
            final(self)@ == slider_raise(old(self)@, i@, v),
    {
        proof {
            reveal(slider_raise);
        }
        if i.is_pressed(self.keys.move_right) {
            self.click();
            let level = self.volume(v);
            if level < 10 {
                self.set_volume(v, level + 1);
                self.announce_volume(v);
            }
        }
    }

    fn slider_lower(&mut self, i: &FrameInput, v: AudioSettingsState)
        ensures
            final(self)@ == slider_lower(old(self)@, i@, v),
    {
        proof {
            reveal(slider_lower);
        }
        if i.is_pressed(self.keys.move_left) {
            self.click();
            let level = self.volume(v);
            if level > 0 {
                self.set_volume(v, level - 1);
                self.announce_volume(v);
            }
        }
    }

    fn slider_leave(&mut self, i: &FrameInput, surf: Surface)
        ensures
            final(self)@ == slider_leave(old(self)@, i@, surf),
    {
        proof {
            reveal(slider_leave);
        }
        let escape = surf == Surface::Startup && i.is_pressed(KEY_ESCAPE);
        if escape {
            self.click();
            self.goto(surf, Screen::Audio { audio: AudioSettingsState::Standard });
        }
        if i.is_pressed(KEY_ENTER) {
            self.click();
            self.goto(surf, Screen::Audio { audio: AudioSettingsState::Standard });
        }
    }

    fn slider_keys(&mut self, i: &FrameInput, surf: Surface, v: AudioSettingsState)
        ensures
            final(self)@ == slider_keys(old(self)@, i@, surf, v),
    {
        proof {
            reveal(slider_keys);
        }
        self.slider_raise(i, v);
        self.slider_lower(i, v);
        self.slider_leave(i, surf);
    }

    fn slider_page(&mut self, i: &FrameInput, surf: Surface, v: AudioSettingsState)
        ensures
            final(self)@ == slider_page(old(self)@, i@, surf, v),
    {
        proof {
            reveal(slider_page);
        }
        self.slider_pointer(i, surf, v);
        self.slider_keys(i, surf, v);
    }

    fn video_page(&mut self, i: &FrameInput, surf: Surface)
        requires
            role_of(old(self)@, surf) < 3,
        ensures
            final(self)@ == video_page(old(self)@, i@, surf),
    {
        proof {
            reveal(video_page);
        }
        self.hover(i, surf, 2780, 10020, 3270, 3, 0);
        self.nav(i, surf, 3);
        self.startup_escape(i, surf, 1, StartupState::Settings);
        if self.confirms(i) {
            self.click();
            if self.role(surf) == 2 {
                self.set_role(surf, 2);
                self.goto(surf, Screen::Settings);
            }
        }
    }

    fn leave_controls(&mut self, surf: Surface)
        ensures
            final(self)@ == leave_controls(old(self)@, surf),
    {
        proof {
            reveal(leave_controls);
        }
        self.set_role(surf, 3);
        self.set_row(surf, 0);
        self.set_col(surf, 0);
        self.kb_to_change = Keybind::Unbound;
        self.goto(surf, Screen::Settings);
    }

    fn controls_hover(&mut self, i: &FrameInput, surf: Surface)
        ensures
            final(self)@ == controls_hover(old(self)@, i@, surf),
            grid_row(final(self)@, surf) == grid_row(old(self)@, surf) || grid_row(final(self)@, surf)
                < 6,
            grid_col(final(self)@, surf) == grid_col(old(self)@, surf) || grid_col(final(self)@, surf)
                < 2,
    {
        proof {
            reveal(controls_hover);
        }
        match i.pointer {
            Some(p) => {
                let in_grid = 2670 < p.y && p.y < 4950;
                let left = 2780 < p.x && p.x < 6400;
                let right = 6400 <= p.x && p.x < 10020;
                if in_grid {
                    if left {
                        self.set_col(surf, 0);
                    } else if right {
                        self.set_col(surf, 1);
                    }
                }
                let across = 2780 < p.x && p.x < 10020;
                if across {
                    match row_at_exec(p.y, 2670, 6) {
                        Some(k) => self.set_row(surf, k as usize),
                        None => {},
                    }
                }
            },
            None => {},
        }
    }

    fn grid_vertical(&mut self, i: &FrameInput, surf: Surface)
        requires
            grid_row(old(self)@, surf) < 6,
        ensures
            final(self)@ == grid_vertical(old(self)@, i@, surf),
            grid_row(final(self)@, surf) < 6,
            grid_col(final(self)@, surf) == grid_col(old(self)@, surf),
    {
        proof {
            reveal(grid_vertical);
        }
        if i.is_pressed(self.keys.look_up) {
            let r = self.row(surf);
            let next = if r == 0 {
                5
            } else {
                r - 1
            };
            self.click();
            self.set_row(surf, next);
        }
        if i.is_pressed(self.keys.look_down) {
            let r = self.row(surf);
            let next = if r == 5 {
                0
            } else {
                r + 1
            };
            self.click();
            self.set_row(surf, next);
        }
    }

    fn grid_horizontal(&mut self, i: &FrameInput, surf: Surface)
        requires
            grid_col(old(self)@, surf) < 2,
        ensures
            final(self)@ == grid_horizontal(old(self)@, i@, surf),
    {
        proof {
            reveal(grid_horizontal);
        }
        if i.is_pressed(self.keys.move_right) {
            let c = self.col(surf);
            let next = if c == 1 {
                0
            } else {
                c + 1
            };
            self.click();
            self.set_col(surf, next);
        }
        if i.is_pressed(self.keys.move_left) {
            let c = self.col(surf);
            let next = if c == 0 {
                1
            } else {
                c - 1
            };
            self.click();
            self.set_col(surf, next);
        }
    }

    fn controls_keys(&mut self, i: &FrameInput, surf: Surface)
        requires
            grid_row(old(self)@, surf) < 6,
            grid_col(old(self)@, surf) < 2,
        ensures
            final(self)@ == controls_keys(old(self)@, i@, surf),
    {
        proof {
            reveal(controls_keys);
        }
        self.grid_vertical(i, surf);
        if self.row(surf) != 5 {
            self.grid_horizontal(i, surf);
        }
    }

    fn controls_choice(&mut self, surf: Surface)
        ensures
            final(self)@ == controls_choice(old(self)@, surf),
    {
        proof {
            reveal(controls_choice);
            reveal(grid_action);
        }
        let r = self.row(surf);
        let c = self.col(surf);
        if r == 5 {
            self.leave_controls(surf);
        } else if r < 5 {
            self.awaiting_kb_input = true;
            self.kb_to_change =
            if c == 0 {
                if r == 0 {
                    Keybind::MoveLeft
                } else if r == 1 {
                    Keybind::MoveRight
                } else if r == 2 {
                    Keybind::LookUp
                } else if r == 3 {
                    Keybind::LookDown
                } else {
                    Keybind::Jump
                }
            } else {
                if r == 0 {
                    Keybind::DashSprint
                } else if r == 1 {
                    Keybind::MeleeAttack
                } else if r == 2 {
                    Keybind::RangedAttack
                } else if r == 3 {
                    Keybind::Interact
                } else {
                    Keybind::Inventory
                }
            };
        }
    }

    /// Binds the action being changed to the last key pressed this frame (see
    /// [`capture_key`]).
    pub fn change_keybind(&mut self, last_key: Option<u16>)
        ensures
            final(self)@ == capture_key(old(self)@, last_key),
    {
        proof {
            reveal(capture_key);
        }
        match last_key {
            None => {},
            Some(key) => {
                self.awaiting_kb_input = false;
                let rebinds = key != KEY_ENTER && key != KEY_ESCAPE;
                if rebinds {
                    let target = self.kb_to_change;
                    self.keys.rebind(target, key);
                }
            },
        }
    }

    fn controls_page(&mut self, i: &FrameInput, surf: Surface)
        requires
            grid_row(old(self)@, surf) < 6,
            grid_col(old(self)@, surf) < 2,
        ensures
            final(self)@ == controls_page(old(self)@, i@, surf),
    {
        proof {
            reveal(controls_page);
        }
        if !self.awaiting_kb_input {
            self.controls_hover(i, surf);
            self.controls_keys(i, surf);
            if surf == Surface::Startup && i.is_pressed(KEY_ESCAPE) {
                self.click();
                self.leave_controls(surf);
            }
            if self.confirms(i) {
                self.click();
                self.controls_choice(surf);
            }
        } else {
            if i.is_pressed(KEY_ESCAPE) || i.is_pressed(KEY_ENTER) || i.left_click {
                self.click();
                self.awaiting_kb_input = false;
            }
            self.change_keybind(i.last_key);
        }
    }

    fn splash_page(&mut self, i: &FrameInput)
        ensures
            final(self)@ == splash_page(old(self)@, i@),
    {
        proof {
            reveal(splash_page);
        }
        if i.last_key.is_some() || i.left_click || i.right_click {
            self.click();
            self.startup_menu_role = 0;
            self.startup_state = StartupState::MainMenu;
        }
    }

    fn main_menu_choice(&mut self)
        ensures
            final(self)@ == main_menu_choice(old(self)@),
    {
        proof {
            reveal(main_menu_choice);
        }
        if self.startup_menu_role == 0 {
            self.startup_menu_role = 0;
            self.startup_state = StartupState::Done;
            self.story = StoryPhase::Playing;
        } else if self.startup_menu_role == 1 {
            self.startup_menu_role = 0;
            self.startup_state = StartupState::Settings;
        } else if self.startup_menu_role == 2 {
            self.push_effect(Effect::Exit);
        }
    }

    fn main_menu_page(&mut self, i: &FrameInput)
        requires
            old(self).startup_menu_role < 3,
        ensures
            final(self)@ == main_menu_page(old(self)@, i@),
    {
        proof {
            reveal(main_menu_page);
        }
        self.hover(i, Surface::Startup, 2780, 10020, 3270, 3, 0);
        self.nav(i, Surface::Startup, 3);
        self.startup_escape(i, Surface::Startup, 0, StartupState::Splash);
        if self.confirms(i) {
            self.click();
            self.main_menu_choice();
        }
    }

    fn take_effects(&mut self) -> (fx: Vec<Effect>)
        ensures
            fx@ == old(self)@.effects,
            final(self)@ == fresh(old(self)@),
    {
        let mut fx: Vec<Effect> = Vec::new();
        std::mem::swap(&mut fx, &mut self.effects);
        fx
    }

    fn startup_dispatch(&mut self, input: &FrameInput)
        requires
            option_count_startup(old(self).startup_state) > 0 ==> old(self).startup_menu_role
                < option_count_startup(old(self).startup_state),
            old(self).controls_settings_row < 6,
            old(self).controls_settings_col < 2,
        ensures
            final(self)@ == startup_frame(old(self)@, input@),
    {
        proof {
            reveal(startup_frame);
        }
        match self.startup_state {
            StartupState::Splash => self.splash_page(input),
            StartupState::MainMenu => self.main_menu_page(input),
            StartupState::Settings => self.settings_page(input, Surface::Startup),
            StartupState::GameSettings => self.game_page(input, Surface::Startup),
            StartupState::AudioSettings { audio_settings_state } => match audio_settings_state {
                AudioSettingsState::Standard => self.audio_page(input, Surface::Startup),
                AudioSettingsState::MusicVolume => self.slider_page(
                    input,
                    Surface::Startup,
                    AudioSettingsState::MusicVolume,
                ),
                AudioSettingsState::SFXVolume => self.slider_page(
                    input,
                    Surface::Startup,
                    AudioSettingsState::SFXVolume,
                ),
                AudioSettingsState::MenuClicksVolume => self.slider_page(
                    input,
                    Surface::Startup,
                    AudioSettingsState::MenuClicksVolume,
                ),
            },
            StartupState::VideoSettings => self.video_page(input, Surface::Startup),
            StartupState::ControlsSettings => self.controls_page(input, Surface::Startup),
            StartupState::Done => {},
        }
    }

    /// One frame of the title screens. The effects it returns are for the
    /// caller to carry out, in order.
    pub fn startup_step(&mut self, input: &FrameInput) -> (fx: Vec<Effect>)
        requires
            old(self)@.wf(),
        ensures
            fx@ == startup_frame(fresh(old(self)@), input@).effects,
            final(self)@ == fresh(startup_frame(fresh(old(self)@), input@)),
            final(self)@.wf(),
    {
        proof {
            lemma_startup_frame_keeps_wf(fresh(old(self)@), input@);
        }
        self.take_effects();
        self.startup_dispatch(input);
        self.take_effects()
    }

    fn pause_escape(&mut self, i: &FrameInput)
        requires
            option_count_pause(old(self).pause_menu_state) > 0 ==> old(self).pause_menu_role
                < option_count_pause(old(self).pause_menu_state),
            old(self).pause_menu_controls_settings_row < 6,
            old(self).pause_menu_controls_settings_col < 2,
        ensures
            final(self)@ == pause_escape(old(self)@, i@),
            option_count_pause(final(self).pause_menu_state) > 0 ==> final(self).pause_menu_role
                < option_count_pause(final(self).pause_menu_state),
            final(self).pause_menu_controls_settings_row < 6,
            final(self).pause_menu_controls_settings_col < 2,
    {
        proof {
            reveal(pause_escape);
        }
        if i.is_pressed(KEY_ESCAPE) {
            self.click();
            match self.pause_menu_state {
                PauseMenuState::Closed => match self.inventory_state {
                    InventoryState::Closed { .. } => {
                        self.paused = true;
                        self.pause_menu_role = 0;
                        self.pause_menu_state = PauseMenuState::Menu;
                    },
                    InventoryState::Open { inventory_page } => {
                        self.inventory_state =
                        InventoryState::Closed { last_inventory_page: inventory_page };
                    },
                },
                PauseMenuState::Menu => {
                    self.pause_menu_role = 0;
                    self.paused = false;
                    self.pause_menu_state = PauseMenuState::Closed;
                },
                PauseMenuState::Settings => {
                    self.pause_menu_role = 1;
                    self.pause_menu_state = PauseMenuState::Menu;
                },
                PauseMenuState::GameSettings => {
                    self.pause_menu_role = 0;
                    self.pause_menu_state = PauseMenuState::Settings;
                },
                PauseMenuState::AudioSettings { audio_settings_state } => match audio_settings_state {
                    AudioSettingsState::Standard => {
                        self.pause_menu_role = 1;
                        self.pause_menu_state = PauseMenuState::Settings;
                    },
                    _ => {
                        self.pause_menu_state =
                        PauseMenuState::AudioSettings {
                            audio_settings_state: AudioSettingsState::Standard,
                        };
                    },
                },
                PauseMenuState::VideoSettings => {
                    self.pause_menu_role = 2;
                    self.pause_menu_state = PauseMenuState::Settings;
                },
                PauseMenuState::ControlsSettings => {
                    self.pause_menu_role = 3;
                    self.pause_menu_state = PauseMenuState::Settings;
                    self.pause_menu_controls_settings_row = 0;
                    self.kb_to_change = Keybind::Unbound;
                },
            }
        }
    }

    fn pause_choice(&mut self)
        ensures
            final(self)@ == pause_choice(old(self)@),
    {
        proof {
            reveal(pause_choice);
        }
        if self.pause_menu_role == 0 {
            self.paused = false;
            self.pause_menu_state = PauseMenuState::Closed;
        } else if self.pause_menu_role == 1 {
            self.pause_menu_state = PauseMenuState::Settings;
            self.pause_menu_role = 0;
        } else if self.pause_menu_role == 2 {
            self.startup_state = StartupState::MainMenu;
            self.pause_menu_state = PauseMenuState::Closed;
            self.pause_menu_role = 0;
            self.startup_menu_role = 0;
            self.paused = false;
            self.story = StoryPhase::NotPlaying;
        } else if self.pause_menu_role == 3 {
            self.push_effect(Effect::Exit);
        }
    }

    fn pause_main_page(&mut self, i: &FrameInput)
        requires
            old(self).pause_menu_role < 4,
        ensures
            final(self)@ == pause_main_page(old(self)@, i@),
    {
        proof {
            reveal(pause_main_page);
        }
        self.hover(i, Surface::Pause, 3380, 9420, 3070, 4, 0);
        self.nav(i, Surface::Pause, 4);
        if self.confirms(i) {
            self.click();
            self.pause_choice();
        }
    }

    fn pause_frame(&mut self, i: &FrameInput)
        requires
            option_count_pause(old(self).pause_menu_state) > 0 ==> old(self).pause_menu_role
                < option_count_pause(old(self).pause_menu_state),
            old(self).pause_menu_controls_settings_row < 6,
            old(self).pause_menu_controls_settings_col < 2,
        ensures
            final(self)@ == pause_frame(old(self)@, i@),
    {
        proof {
            reveal(pause_frame);
        }
        match self.pause_menu_state {
            PauseMenuState::Menu => self.pause_main_page(i),
            PauseMenuState::Settings => self.settings_page(i, Surface::Pause),
            PauseMenuState::GameSettings => self.game_page(i, Surface::Pause),
            PauseMenuState::AudioSettings { audio_settings_state } => match audio_settings_state {
                AudioSettingsState::Standard => self.audio_page(i, Surface::Pause),
                v => self.slider_page(i, Surface::Pause, v),
            },
            PauseMenuState::VideoSettings => self.video_page(i, Surface::Pause),
            PauseMenuState::ControlsSettings => self.controls_page(i, Surface::Pause),
            PauseMenuState::Closed => {},
        }
    }

    fn inventory_toggle(&mut self, i: &FrameInput)
        ensures
            final(self)@ == inventory_toggle(old(self)@, i@),
    {
        proof {
            reveal(inventory_toggle);
        }
        if i.is_pressed(self.keys.inventory) {
            self.click();
            let next = match self.inventory_state {
                InventoryState::Closed { last_inventory_page } => InventoryState::Open {
                    inventory_page: last_inventory_page,
                },
                InventoryState::Open { inventory_page } => InventoryState::Closed {
                    last_inventory_page: inventory_page,
                },
            };
            self.inventory_state = next;
        }
    }

    fn inventory_turn(&mut self, i: &FrameInput)
        ensures
            final(self)@ == inventory_turn(old(self)@, i@),
    {
        proof {
            reveal(inventory_turn);
        }
        match self.inventory_state {
            InventoryState::Open { inventory_page } => {
                let next = match inventory_page {
                    InventoryPage::Items => InventoryPage::Equipment,
                    InventoryPage::Equipment => InventoryPage::WorldMap,
                    InventoryPage::WorldMap => InventoryPage::EnemyLog,
                    InventoryPage::EnemyLog => InventoryPage::Items,
                };
                let previous = match inventory_page {
                    InventoryPage::Items => InventoryPage::EnemyLog,
                    InventoryPage::Equipment => InventoryPage::Items,
                    InventoryPage::WorldMap => InventoryPage::Equipment,
                    InventoryPage::EnemyLog => InventoryPage::WorldMap,
                };
                if i.is_pressed(self.keys.move_right) {
                    self.click();
                    self.inventory_state = InventoryState::Open { inventory_page: next };
                }
                if i.is_pressed(self.keys.move_left) {
                    self.click();
                    self.inventory_state = InventoryState::Open { inventory_page: previous };
                }
            },
            InventoryState::Closed { .. } => {},
        }
    }

    fn inventory_frame(&mut self, i: &FrameInput)
        ensures
            final(self)@ == inventory_frame(old(self)@, i@),
    {
        proof {
            reveal(inventory_frame);
        }
        self.inventory_toggle(i);
        self.inventory_turn(i);
    }

    /// The menu part of one frame of play (Escape, the pause menu, the
    /// inventory). The effects it returns are for the caller to carry out, in
    /// order.
    pub fn playing_step(&mut self, input: &FrameInput) -> (fx: Vec<Effect>)
        requires
            old(self)@.wf(),
        ensures
            fx@ == playing_frame(fresh(old(self)@), input@).effects,
            final(self)@ == fresh(playing_frame(fresh(old(self)@), input@)),
            final(self)@.wf(),
    {
        proof {
            lemma_playing_frame_keeps_wf(fresh(old(self)@), input@);
        }
        proof {
            reveal(playing_frame);
        }
        self.take_effects();
        self.pause_escape(input);
        if self.paused {
            self.pause_frame(input);
        }
        self.inventory_frame(input);
        self.take_effects()
    }
}

} // verus!
