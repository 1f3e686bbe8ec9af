use vstd::prelude::*;

use crate::input::{row_at, volume_level_at, InputView};
use crate::keybinds::{lemma_rebind_keeps_menu_keys_free, Keybind, KEY_ENTER, KEY_ESCAPE};
use crate::menus::{
    audio_choice, audio_page, capture_key, click, controls_choice, controls_hover, controls_keys,
    controls_page, fresh, game_choice, game_page, goto, grid_col, grid_horizontal, grid_row,
    grid_vertical, hover, inventory_frame, inventory_toggle, inventory_turn, leave_controls,
    main_menu_choice, main_menu_page, nav, nav_down, nav_up, option_count_pause,
    option_count_startup, pause_choice, pause_escape, pause_frame, pause_main_page, playing_frame,
    role_of, settings_choice, settings_page, slider_keys, slider_leave, slider_lower, slider_page,
    slider_pick, slider_pointer, slider_press, slider_raise, splash_page, startup_escape,
    startup_frame, video_page, with_role, AudioSettingsState, MenusView, PauseMenuState, Screen,
    StartupState, Surface,
};

verus! {

/// The number of options of the page that `surf` shows.
pub open spec fn count_of(s: MenusView, surf: Surface) -> usize {
    match surf {
        Surface::Startup => option_count_startup(s.startup_state),
        Surface::Pause => option_count_pause(s.pause_menu_state),
    }
}

/// `surf` is showing a page: the title screens are not done, or the pause
/// menu is open.
pub open spec fn on_surface(s: MenusView, surf: Surface) -> bool {
    match surf {
        Surface::Startup => s.startup_state != StartupState::Done,
        Surface::Pause => s.pause_menu_state != PauseMenuState::Closed,
    }
}

/// Both sets of menus show the same pages.
pub open spec fn same_pages(a: MenusView, b: MenusView) -> bool {
    a.startup_state == b.startup_state && a.pause_menu_state == b.pause_menu_state
}

proof fn lemma_row_at_bound(y: int, top: int, n: int)
    requires
        n > 0,
    ensures
        row_at(y, top, n) matches Some(k) ==> 0 <= k < n,
{
    let d = y - top;
    if 0 < d && d < 380 * n {
        assert(0 <= d / 380 < n) by (nonlinear_arith)
            requires
                0 < d < 380 * n,
        ;
    }
}

proof fn lemma_volume_level_bound(x: int)
    ensures
        volume_level_at(x) matches Some(v) ==> v <= 10,
{
    let d = x - 5224;
    if 0 < d && d < 488 * 9 {
        assert(0 <= d / 488 < 9) by (nonlinear_arith)
            requires
                0 < d < 488 * 9,
        ;
    }
}

proof fn lemma_hover(
    s: MenusView,
    i: InputView,
    surf: Surface,
    x_lo: int,
    x_hi: int,
    top: int,
    n: int,
    offset: usize,
)
    requires
        s.wf(),
        n > 0,
        offset + n <= count_of(s, surf),
    ensures
        hover(s, i, surf, x_lo, x_hi, top, n, offset).wf(),
        same_pages(hover(s, i, surf, x_lo, x_hi, top, n, offset), s),
{
    reveal(hover);
    match i.pointer {
        Some(p) => lemma_row_at_bound(p.y as int, top, n),
        None => {},
    }
}

proof fn lemma_nav(s: MenusView, i: InputView, surf: Surface, n: usize)
    requires
        s.wf(),
        n > 0,
        count_of(s, surf) == n,
    ensures
        nav(s, i, surf, n).wf(),
        same_pages(nav(s, i, surf, n), s),
{
    reveal(nav);
    reveal(nav_up);
    reveal(nav_down);
}

proof fn lemma_startup_escape(
    s: MenusView,
    i: InputView,
    surf: Surface,
    role: usize,
    target: StartupState,
)
    requires
        s.wf(),
        on_surface(s, surf),
        target != StartupState::Done,
        option_count_startup(target) > 0 ==> role < option_count_startup(target),
    ensures
        startup_escape(s, i, surf, role, target).wf(),
        on_surface(startup_escape(s, i, surf, role, target), surf),
        surf == Surface::Pause ==> startup_escape(s, i, surf, role, target) == s,
{
    reveal(startup_escape);
}

proof fn lemma_settings_choice(s: MenusView, surf: Surface)
    requires
        s.wf(),
        on_surface(s, surf),
    ensures
        settings_choice(s, surf).wf(),
{
    reveal(settings_choice);
}

proof fn lemma_settings_page(s: MenusView, i: InputView, surf: Surface)
    requires
        s.wf(),
        on_surface(s, surf),
        count_of(s, surf) == 5,
    ensures
        settings_page(s, i, surf).wf(),
{
    reveal(settings_page);
    let s1 = hover(s, i, surf, 2780, 10020, 2870, 5, 0);
    lemma_hover(s, i, surf, 2780, 10020, 2870, 5, 0);
    let s2 = nav(s1, i, surf, 5);
    lemma_nav(s1, i, surf, 5);
    let s3 = startup_escape(s2, i, surf, 1, StartupState::MainMenu);
    lemma_startup_escape(s2, i, surf, 1, StartupState::MainMenu);
    lemma_settings_choice(click(s3), surf);
}

proof fn lemma_game_choice(s: MenusView, surf: Surface)
    requires
        s.wf(),
        on_surface(s, surf),
    ensures
        game_choice(s, surf).wf(),
{
    reveal(game_choice);
}

proof fn lemma_audio_choice(s: MenusView, surf: Surface)
    requires
        s.wf(),
        on_surface(s, surf),
    ensures
        audio_choice(s, surf).wf(),
{
    reveal(audio_choice);
}

proof fn lemma_game_page(s: MenusView, i: InputView, surf: Surface)
    requires
        s.wf(),
        on_surface(s, surf),
        count_of(s, surf) == 5,
    ensures
        game_page(s, i, surf).wf(),
{
    reveal(game_page);
    let s1 = hover(s, i, surf, 2780, 10020, 2870, 5, 0);
    lemma_hover(s, i, surf, 2780, 10020, 2870, 5, 0);
    let s2 = nav(s1, i, surf, 5);
    lemma_nav(s1, i, surf, 5);
    let s3 = startup_escape(s2, i, surf, 0, StartupState::Settings);
    lemma_startup_escape(s2, i, surf, 0, StartupState::Settings);
    lemma_game_choice(click(s3), surf);
}

proof fn lemma_audio_page(s: MenusView, i: InputView, surf: Surface)
    requires
        s.wf(),
        on_surface(s, surf),
        count_of(s, surf) == 9,
    ensures
        audio_page(s, i, surf).wf(),
{
    reveal(audio_page);
    let s1 = hover(s, i, surf, 2780, 4780, 3970, 4, 5);
    lemma_hover(s, i, surf, 2780, 4780, 3970, 4, 5);
    let s2 = hover(s1, i, surf, 2780, 10020, 2070, 5, 0);
    lemma_hover(s1, i, surf, 2780, 10020, 2070, 5, 0);
    let s3 = nav(s2, i, surf, 9);
    lemma_nav(s2, i, surf, 9);
    let s4 = startup_escape(s3, i, surf, 1, StartupState::Settings);
    lemma_startup_escape(s3, i, surf, 1, StartupState::Settings);
    lemma_audio_choice(click(s4), surf);
}

proof fn lemma_slider_pointer(s: MenusView, i: InputView, surf: Surface, v: AudioSettingsState)
    requires
        s.wf(),
        on_surface(s, surf),
        count_of(s, surf) == 9,
        v != AudioSettingsState::Standard,
    ensures
        slider_pointer(s, i, surf, v).wf(),
        on_surface(slider_pointer(s, i, surf, v), surf),
{
    reveal(slider_pointer);
    reveal(slider_pick);
    reveal(slider_press);
    match i.pointer {
        Some(p) => lemma_volume_level_bound(p.x as int),
        None => {},
    }
}

proof fn lemma_slider_raise(s: MenusView, i: InputView, surf: Surface, v: AudioSettingsState)
    requires
        s.wf(),
    ensures
        slider_raise(s, i, v).wf(),
        same_pages(slider_raise(s, i, v), s),
{
    reveal(slider_raise);
    reveal(crate::menus::announce_volume);
}

proof fn lemma_slider_lower(s: MenusView, i: InputView, surf: Surface, v: AudioSettingsState)
    requires
        s.wf(),
    ensures
        slider_lower(s, i, v).wf(),
        same_pages(slider_lower(s, i, v), s),
{
    reveal(slider_lower);
    reveal(crate::menus::announce_volume);
}

proof fn lemma_slider_leave(s: MenusView, i: InputView, surf: Surface)
    requires
        s.wf(),
        on_surface(s, surf),
        count_of(s, surf) == 9,
    ensures
        slider_leave(s, i, surf).wf(),
{
    reveal(slider_leave);
}

proof fn lemma_slider_keys(s: MenusView, i: InputView, surf: Surface, v: AudioSettingsState)
    requires
        s.wf(),
        on_surface(s, surf),
        count_of(s, surf) == 9,
    ensures
        slider_keys(s, i, surf, v).wf(),
{
    reveal(slider_keys);
    lemma_slider_raise(s, i, surf, v);
    let s1 = slider_raise(s, i, v);
    lemma_slider_lower(s1, i, surf, v);
    let s2 = slider_lower(s1, i, v);
    lemma_slider_leave(s2, i, surf);
}

proof fn lemma_slider_page(s: MenusView, i: InputView, surf: Surface, v: AudioSettingsState)
    requires
        s.wf(),
        on_surface(s, surf),
        count_of(s, surf) == 9,
        v != AudioSettingsState::Standard,
    ensures
        slider_page(s, i, surf, v).wf(),
{
    reveal(slider_page);
    reveal(slider_pointer);
    reveal(slider_press);
    reveal(slider_pick);
    lemma_slider_pointer(s, i, surf, v);
    let s1 = slider_pointer(s, i, surf, v);
    assert(count_of(s1, surf) == 9);
    lemma_slider_keys(s1, i, surf, v);
}

proof fn lemma_video_page(s: MenusView, i: InputView, surf: Surface)
    requires
        s.wf(),
        on_surface(s, surf),
        count_of(s, surf) == 3,
    ensures
        video_page(s, i, surf).wf(),
{
    reveal(video_page);
    let s1 = hover(s, i, surf, 2780, 10020, 3270, 3, 0);
    lemma_hover(s, i, surf, 2780, 10020, 3270, 3, 0);
    let s2 = nav(s1, i, surf, 3);
    lemma_nav(s1, i, surf, 3);
    let s3 = startup_escape(s2, i, surf, 1, StartupState::Settings);
    lemma_startup_escape(s2, i, surf, 1, StartupState::Settings);
    assert(click(s3).wf());
}

proof fn lemma_controls_hover(s: MenusView, i: InputView, surf: Surface)
    requires
        s.wf(),
    ensures
        controls_hover(s, i, surf).wf(),
        same_pages(controls_hover(s, i, surf), s),
{
    reveal(controls_hover);
    match i.pointer {
        Some(p) => lemma_row_at_bound(p.y as int, 2670, 6),
        None => {},
    }
}

proof fn lemma_grid_vertical(s: MenusView, i: InputView, surf: Surface)
    requires
        s.wf(),
    ensures
        grid_vertical(s, i, surf).wf(),
        same_pages(grid_vertical(s, i, surf), s),
{
    reveal(grid_vertical);
}

proof fn lemma_grid_horizontal(s: MenusView, i: InputView, surf: Surface)
    requires
        s.wf(),
    ensures
        grid_horizontal(s, i, surf).wf(),
        same_pages(grid_horizontal(s, i, surf), s),
{
    reveal(grid_horizontal);
}

proof fn lemma_controls_keys(s: MenusView, i: InputView, surf: Surface)
    requires
        s.wf(),
    ensures
        controls_keys(s, i, surf).wf(),
        same_pages(controls_keys(s, i, surf), s),
{
    reveal(controls_keys);
    lemma_grid_vertical(s, i, surf);
    lemma_grid_horizontal(grid_vertical(s, i, surf), i, surf);
}

proof fn lemma_controls_moves(s: MenusView, i: InputView, surf: Surface)
    requires
        s.wf(),
    ensures
        controls_keys(controls_hover(s, i, surf), i, surf).wf(),
        same_pages(controls_keys(controls_hover(s, i, surf), i, surf), s),
{
    lemma_controls_hover(s, i, surf);
    lemma_controls_keys(controls_hover(s, i, surf), i, surf);
}

proof fn lemma_controls_page(s: MenusView, i: InputView, surf: Surface)
    requires
        s.wf(),
        on_surface(s, surf),
    ensures
        controls_page(s, i, surf).wf(),
{
    reveal(controls_page);
    reveal(controls_choice);
    reveal(leave_controls);
    reveal(capture_key);
    if !s.awaiting_kb_input {
        lemma_controls_moves(s, i, surf);
    } else {
        match i.last_key {
            Some(key) => {
                if key != KEY_ENTER && key != KEY_ESCAPE {
                    lemma_rebind_keeps_menu_keys_free(s.keys, s.kb_to_change, key);
                }
            },
            None => {},
        }
    }
}

proof fn lemma_main_menu_page(s: MenusView, i: InputView)
    requires
        s.wf(),
        s.startup_state == StartupState::MainMenu,
    ensures
        main_menu_page(s, i).wf(),
{
    reveal(main_menu_page);
    reveal(main_menu_choice);
    let s1 = hover(s, i, Surface::Startup, 2780, 10020, 3270, 3, 0);
    lemma_hover(s, i, Surface::Startup, 2780, 10020, 3270, 3, 0);
    let s2 = nav(s1, i, Surface::Startup, 3);
    lemma_nav(s1, i, Surface::Startup, 3);
    let s3 = startup_escape(s2, i, Surface::Startup, 0, StartupState::Splash);
    lemma_startup_escape(s2, i, Surface::Startup, 0, StartupState::Splash);
    assert(click(s3).wf());
}

/// Every frame of the title screens keeps the menus' invariant.
pub proof fn lemma_startup_frame_keeps_wf(s: MenusView, i: InputView)
    requires
        s.wf(),
    ensures
        startup_frame(s, i).wf(),
{
    reveal(startup_frame);
    match s.startup_state {
        StartupState::Splash => {
            reveal(splash_page);
        },
        StartupState::MainMenu => lemma_main_menu_page(s, i),
        StartupState::Settings => lemma_settings_page(s, i, Surface::Startup),
        StartupState::GameSettings => lemma_game_page(s, i, Surface::Startup),
        StartupState::AudioSettings { audio_settings_state } => {
            if audio_settings_state == AudioSettingsState::Standard {
                lemma_audio_page(s, i, Surface::Startup);
            } else {
                lemma_slider_page(s, i, Surface::Startup, audio_settings_state);
            }
        },
        StartupState::VideoSettings => lemma_video_page(s, i, Surface::Startup),
        StartupState::ControlsSettings => lemma_controls_page(s, i, Surface::Startup),
        StartupState::Done => {},
    }
}

proof fn lemma_pause_frame(s: MenusView, i: InputView)
    requires
        s.wf(),
    ensures
        pause_frame(s, i).wf(),
{
    reveal(pause_frame);
    match s.pause_menu_state {
        PauseMenuState::Menu => {
            reveal(pause_main_page);
            reveal(pause_choice);
            let s1 = hover(s, i, Surface::Pause, 3380, 9420, 3070, 4, 0);
            lemma_hover(s, i, Surface::Pause, 3380, 9420, 3070, 4, 0);
            lemma_nav(s1, i, Surface::Pause, 4);
        },
        PauseMenuState::Settings => lemma_settings_page(s, i, Surface::Pause),
        PauseMenuState::GameSettings => lemma_game_page(s, i, Surface::Pause),
        PauseMenuState::AudioSettings { audio_settings_state } => {
            if audio_settings_state == AudioSettingsState::Standard {
                lemma_audio_page(s, i, Surface::Pause);
            } else {
                lemma_slider_page(s, i, Surface::Pause, audio_settings_state);
            }
        },
        PauseMenuState::VideoSettings => lemma_video_page(s, i, Surface::Pause),
        PauseMenuState::ControlsSettings => lemma_controls_page(s, i, Surface::Pause),
        PauseMenuState::Closed => {},
    }
}

/// Every frame of play keeps the menus' invariant.
pub proof fn lemma_playing_frame_keeps_wf(s: MenusView, i: InputView)
    requires
        s.wf(),
    ensures
        playing_frame(s, i).wf(),
{
    reveal(playing_frame);
    reveal(pause_escape);
    reveal(inventory_frame);
    reveal(inventory_toggle);
    reveal(inventory_turn);
    let s1 = pause_escape(s, i);
    assert(s1.wf());
    if s1.paused {
        lemma_pause_frame(s1, i);
    }
}

} // verus!
