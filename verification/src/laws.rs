use vstd::prelude::*;

use crate::input::{key_down, InputView};
use crate::keybinds::{
    binding, is_menu_key, listed_action, menu_keys_free, rebind_spec, with_binding, KeyBindingsView, Keybind,
    KEY_ENTER, KEY_ESCAPE,
};
use crate::menu_laws::lemma_playing_frame_keeps_wf;
use crate::menus::{
    audio_choice, audio_page, capture_key, controls_choice, controls_hover, controls_keys,
    controls_page, fresh, game_choice, game_page, grid_horizontal, grid_vertical, hover,
    inventory_frame, inventory_toggle, inventory_turn, leave_controls, nav, nav_down, nav_up,
    next_page, pause_choice, pause_escape, pause_frame, pause_main_page, playing_frame,
    previous_page, settings_choice, settings_page, slider_keys, slider_leave, slider_lower,
    slider_page, slider_pick, slider_pointer, slider_press, slider_raise, startup_escape,
    startup_frame, video_page, volume_of, AudioSettingsState, InventoryPage, InventoryState,
    MenusView, PauseMenuState, StartupState, Surface, Abilities, Effect, grid_action,
};
use crate::story::StoryPhase;
use crate::room::{classify, parse_room_spec, tile_row, Tile};

verus! {

/// In every room that a file describes, each door cell names one of the room's
/// doors, so walking into a door always finds where it leads.
pub proof fn lemma_parsed_room_doors_lead_somewhere(text: Seq<char>, y: int, x: int)
    requires
        parse_room_spec(text) is Ok,
        0 <= y < parse_room_spec(text)->Ok_0.rows.len(),
        0 <= x < parse_room_spec(text)->Ok_0.rows[y].len(),
    ensures
        match parse_room_spec(text)->Ok_0.rows[y][x] {
            Tile::Door { identifier } => parse_room_spec(text)->Ok_0.doors.dom().contains(identifier),
            _ => true,
        },
{
    let m = parse_room_spec(text)->Ok_0;
    let l = crate::text::lines(text)[y + 2];
    assert(m.rows[y] == tile_row(l, m.doors));
    assert(m.rows[y][x] == classify(l[x], m.doors));
}

/// Binding an action to a key gives the action that key, unless the table
/// already lists the key under that very action.
pub proof fn lemma_rebind_takes_key(k: KeyBindingsView, target: Keybind, key: u16)
    requires
        target != Keybind::Unbound,
        listed_action(k, key) != target,
    ensures
        binding(rebind_spec(k, target, key), target) == Some(key),
{
}

/// When the table lists the key under another action, that action gets the
/// key the rebound action had: the two swap.
pub proof fn lemma_rebind_swaps(k: KeyBindingsView, target: Keybind, key: u16)
    requires
        target != Keybind::Unbound,
        listed_action(k, key) != target,
        listed_action(k, key) != Keybind::Unbound,
    ensures
        binding(rebind_spec(k, target, key), listed_action(k, key)) == binding(k, target),
{
}

/// Rebinding leaves every other action's key alone.
pub proof fn lemma_rebind_keeps_others(k: KeyBindingsView, target: Keybind, key: u16, other: Keybind)
    requires
        other != target,
        other != listed_action(k, key),
    ensures
        binding(rebind_spec(k, target, key), other) == binding(k, other),
{
    if target != Keybind::Unbound {
        let old_key = binding(k, target)->0;
        let taken = listed_action(k, key);
        let k1 = with_binding(k, target, key);
        lemma_with_binding_other(k, target, key, other);
        if k.map.dom().contains(key) && taken != Keybind::Unbound {
            let k1b = with_binding(k1, taken, old_key);
            lemma_with_binding_other(k1, taken, old_key, other);
            assert(binding(k1b, other) == binding(k, other));
        }
    }
}

/// Setting one action's key leaves every other action's key alone.
proof fn lemma_with_binding_other(k: KeyBindingsView, b: Keybind, key: u16, other: Keybind)
    requires
        other != b,
    ensures
        binding(with_binding(k, b, key), other) == binding(k, other),
{
}

/// Only `key` is pressed this frame, and no mouse button.
pub open spec fn only_key(i: InputView, key: u16) -> bool {
    i.pressed == seq![key] && !i.left_click && !i.right_click
}

proof fn lemma_only_key(i: InputView, key: u16)
    requires
        only_key(i, key),
    ensures
        key_down(i, key),
        forall|other: u16| other != key ==> !#[trigger] key_down(i, other),
{
    assert(i.pressed[0] == key);
    assert forall|other: u16| other != key implies !#[trigger] key_down(i, other) by {
        if i.pressed.contains(other) {
            let j = choose|j: int| 0 <= j < i.pressed.len() && i.pressed[j] == other;
            assert(j == 0);
        }
    }
}

/// While the title screens wait for a key to bind, a frame whose last key is
/// Enter or Escape stops waiting and binds nothing.
pub proof fn lemma_menu_keys_cancel_binding(s: MenusView, i: InputView)
    requires
        s.wf(),
        s.startup_state == StartupState::ControlsSettings,
        s.awaiting_kb_input,
        i.last_key == Some(KEY_ENTER) || i.last_key == Some(KEY_ESCAPE),
    ensures
        startup_frame(fresh(s), i).keys == s.keys,
        !startup_frame(fresh(s), i).awaiting_kb_input,
        startup_frame(fresh(s), i).startup_state == StartupState::ControlsSettings,
{
    reveal(startup_frame);
    reveal(controls_page);
    reveal(capture_key);
}

/// While the title screens wait for a key to bind, a frame whose last key is
/// any other key binds the chosen action to it and stops waiting.
pub proof fn lemma_waiting_binds_last_key(s: MenusView, i: InputView, key: u16)
    requires
        s.wf(),
        s.startup_state == StartupState::ControlsSettings,
        s.awaiting_kb_input,
        i.last_key == Some(key),
        !is_menu_key(key),
    ensures
        startup_frame(fresh(s), i).keys == rebind_spec(s.keys, s.kb_to_change, key),
        !startup_frame(fresh(s), i).awaiting_kb_input,
        startup_frame(fresh(s), i).startup_state == StartupState::ControlsSettings,
{
    reveal(startup_frame);
    reveal(controls_page);
    reveal(capture_key);
}

/// On a volume slider of the title screens, a frame pressing only the
/// move-right key raises a volume below 10 by one, and a following frame
/// pressing only the move-left key brings it back (when the two keys differ).
pub proof fn lemma_volume_raise_then_lower(
    s: MenusView,
    up: InputView,
    down: InputView,
    v: AudioSettingsState,
)
    requires
        s.wf(),
        v != AudioSettingsState::Standard,
        s.startup_state == (StartupState::AudioSettings { audio_settings_state: v }),
        volume_of(s, v) < 10,
        s.keys.move_left != s.keys.move_right,
        only_key(up, s.keys.move_right),
        only_key(down, s.keys.move_left),
    ensures
        volume_of(startup_frame(fresh(s), up), v) == volume_of(s, v) + 1,
        startup_frame(fresh(s), up).startup_state == s.startup_state,
        volume_of(startup_frame(fresh(startup_frame(fresh(s), up)), down), v) == volume_of(s, v),
        startup_frame(fresh(startup_frame(fresh(s), up)), down).startup_state == s.startup_state,
{
    let s1 = startup_frame(fresh(s), up);
    lemma_slider_frame(fresh(s), up, v, true);
    lemma_slider_frame(fresh(s1), down, v, false);
}

/// One frame on a volume slider of the title screens that presses only the
/// move-right key (`raise`) or only the move-left key (not `raise`).
proof fn lemma_slider_frame(s: MenusView, i: InputView, v: AudioSettingsState, raise: bool)
    requires
        v != AudioSettingsState::Standard,
        s.startup_state == (StartupState::AudioSettings { audio_settings_state: v }),
        menu_keys_free(s.keys),
        s.keys.move_left != s.keys.move_right,
        raise ==> volume_of(s, v) < 10 && only_key(i, s.keys.move_right),
        !raise ==> volume_of(s, v) > 0 && only_key(i, s.keys.move_left),
    ensures
        volume_of(startup_frame(s, i), v) == if raise {
            volume_of(s, v) + 1
        } else {
            volume_of(s, v) - 1
        },
        startup_frame(s, i).startup_state == s.startup_state,
        startup_frame(s, i).keys == s.keys,
{
    if raise {
        lemma_only_key(i, s.keys.move_right);
    } else {
        lemma_only_key(i, s.keys.move_left);
    }
    let surf = Surface::Startup;
    assert(startup_frame(s, i) == slider_page(s, i, surf, v)) by {
        reveal(startup_frame);
    }
    let p = slider_pointer(s, i, surf, v);
    assert(p.sound == s.sound && p.keys == s.keys && p.startup_state == s.startup_state) by {
        reveal(slider_pointer);
        reveal(slider_pick);
        reveal(slider_press);
    }
    let r = slider_raise(p, i, v);
    assert(volume_of(r, v) == if raise {
        volume_of(s, v) + 1
    } else {
        volume_of(s, v) as int
    } && r.keys == s.keys && r.startup_state == s.startup_state) by {
        reveal(slider_raise);
        reveal(crate::menus::announce_volume);
    }
    let l = slider_lower(r, i, v);
    assert(volume_of(l, v) == if raise {
        volume_of(s, v) + 1
    } else {
        volume_of(s, v) - 1
    } && l.keys == s.keys && l.startup_state == s.startup_state) by {
        reveal(slider_lower);
        reveal(crate::menus::announce_volume);
    }
    assert(slider_leave(l, i, surf) == l) by {
        reveal(slider_leave);
    }
    assert(slider_page(s, i, surf, v) == slider_leave(l, i, surf)) by {
        reveal(slider_page);
        reveal(slider_keys);
    }
}

/// During play, with the pause menu and the inventory closed, a frame
/// pressing only Escape opens the pause menu, and a second one closes it.
pub proof fn lemma_escape_pauses_then_resumes(s: MenusView, i: InputView)
    requires
        s.wf(),
        s.pause_menu_state == PauseMenuState::Closed,
        s.inventory_state is Closed,
        only_key(i, KEY_ESCAPE),
    ensures
        playing_frame(fresh(s), i).paused,
        playing_frame(fresh(s), i).pause_menu_state == PauseMenuState::Menu,
        !playing_frame(fresh(playing_frame(fresh(s), i)), i).paused,
        playing_frame(fresh(playing_frame(fresh(s), i)), i).pause_menu_state
            == PauseMenuState::Closed,
        playing_frame(fresh(playing_frame(fresh(s), i)), i).inventory_state == s.inventory_state,
{
    lemma_only_key(i, KEY_ESCAPE);
    reveal(playing_frame);
    reveal(pause_escape);
    reveal(pause_frame);
    reveal(pause_main_page);
    reveal(nav);
    reveal(nav_up);
    reveal(nav_down);
    reveal(hover);
    reveal(inventory_frame);
    reveal(inventory_toggle);
    reveal(inventory_turn);
}

/// Neither the inventory nor the key bindings change from `a` to `b`.
pub open spec fn keeps_inventory(a: MenusView, b: MenusView) -> bool {
    a.inventory_state == b.inventory_state && a.keys == b.keys
}

proof fn lemma_settings_page_keeps(s: MenusView, i: InputView, surf: Surface)
    ensures
        keeps_inventory(settings_page(s, i, surf), s),
{
    reveal(settings_page);
    reveal(hover);
    reveal(nav);
    reveal(nav_up);
    reveal(nav_down);
    reveal(startup_escape);
    reveal(settings_choice);
}

proof fn lemma_game_page_keeps(s: MenusView, i: InputView, surf: Surface)
    ensures
        keeps_inventory(game_page(s, i, surf), s),
{
    reveal(game_page);
    reveal(hover);
    reveal(nav);
    reveal(nav_up);
    reveal(nav_down);
    reveal(startup_escape);
    reveal(game_choice);
}

proof fn lemma_audio_page_keeps(s: MenusView, i: InputView, surf: Surface)
    ensures
        keeps_inventory(audio_page(s, i, surf), s),
{
    reveal(audio_page);
    reveal(hover);
    reveal(nav);
    reveal(nav_up);
    reveal(nav_down);
    reveal(startup_escape);
    reveal(audio_choice);
}

proof fn lemma_slider_page_keeps(s: MenusView, i: InputView, surf: Surface, v: AudioSettingsState)
    ensures
        keeps_inventory(slider_page(s, i, surf, v), s),
{
    let p = slider_pointer(s, i, surf, v);
    assert(keeps_inventory(p, s)) by {
        reveal(slider_pointer);
        reveal(slider_pick);
        reveal(slider_press);
    }
    let r = slider_raise(p, i, v);
    assert(keeps_inventory(r, p)) by {
        reveal(slider_raise);
        reveal(crate::menus::announce_volume);
    }
    let l = slider_lower(r, i, v);
    assert(keeps_inventory(l, r)) by {
        reveal(slider_lower);
        reveal(crate::menus::announce_volume);
    }
    assert(keeps_inventory(slider_leave(l, i, surf), l)) by {
        reveal(slider_leave);
    }
    assert(slider_page(s, i, surf, v) == slider_leave(l, i, surf)) by {
        reveal(slider_page);
        reveal(slider_keys);
    }
}

proof fn lemma_video_page_keeps(s: MenusView, i: InputView, surf: Surface)
    ensures
        keeps_inventory(video_page(s, i, surf), s),
{
    reveal(video_page);
    reveal(hover);
    reveal(nav);
    reveal(nav_up);
    reveal(nav_down);
    reveal(startup_escape);
}

proof fn lemma_controls_page_keeps(s: MenusView, i: InputView, surf: Surface)
    requires
        !s.awaiting_kb_input,
    ensures
        keeps_inventory(controls_page(s, i, surf), s),
{
    let h = controls_hover(s, i, surf);
    assert(keeps_inventory(h, s)) by {
        reveal(controls_hover);
    }
    let k = controls_keys(h, i, surf);
    assert(keeps_inventory(k, h)) by {
        reveal(controls_keys);
        reveal(grid_vertical);
        reveal(grid_horizontal);
    }
    reveal(controls_page);
    reveal(leave_controls);
    reveal(controls_choice);
}

proof fn lemma_pause_main_page_keeps(s: MenusView, i: InputView)
    ensures
        keeps_inventory(pause_main_page(s, i), s),
{
    reveal(pause_main_page);
    reveal(hover);
    reveal(nav);
    reveal(nav_up);
    reveal(nav_down);
    reveal(pause_choice);
}

/// The key bindings that a frame of play leaves: while the pause menu's
/// controls page waits for a key, the frame's last key (unless it is Enter or
/// Escape) is bound to the chosen action; otherwise they stay as they were.
pub open spec fn keys_after_frame(s: MenusView, i: InputView) -> KeyBindingsView {
    if s.pause_menu_state == PauseMenuState::ControlsSettings && s.awaiting_kb_input {
        match i.last_key {
            Some(key) => if is_menu_key(key) {
                s.keys
            } else {
                rebind_spec(s.keys, s.kb_to_change, key)
            },
            None => s.keys,
        }
    } else {
        s.keys
    }
}

/// A pause-menu frame leaves the inventory alone, and the key bindings as
/// [`keys_after_frame`] says.
proof fn lemma_pause_frame_keeps(s: MenusView, i: InputView)
    ensures
        pause_frame(s, i).inventory_state == s.inventory_state,
        pause_frame(s, i).keys == keys_after_frame(s, i),
{
    reveal(pause_frame);
    let surf = Surface::Pause;
    match s.pause_menu_state {
        PauseMenuState::Menu => lemma_pause_main_page_keeps(s, i),
        PauseMenuState::Settings => lemma_settings_page_keeps(s, i, surf),
        PauseMenuState::GameSettings => lemma_game_page_keeps(s, i, surf),
        PauseMenuState::AudioSettings { audio_settings_state } => {
            if audio_settings_state == AudioSettingsState::Standard {
                lemma_audio_page_keeps(s, i, surf);
            } else {
                lemma_slider_page_keeps(s, i, surf, audio_settings_state);
            }
        },
        PauseMenuState::VideoSettings => lemma_video_page_keeps(s, i, surf),
        PauseMenuState::ControlsSettings => {
            if s.awaiting_kb_input {
                reveal(controls_page);
                reveal(capture_key);
            } else {
                lemma_controls_page_keeps(s, i, surf);
            }
        },
        PauseMenuState::Closed => {},
    }
}

/// Exactly one of the three holds.
pub open spec fn exactly_one(a: bool, b: bool, c: bool) -> bool {
    (a && !b && !c) || (!a && b && !c) || (!a && !b && c)
}

/// A frame of play that the inventory rule reads as one key: Escape is not
/// pressed, and exactly one of the inventory, move-right and move-left keys
/// is, as bound once the frame's key capture (if any) is done.
pub open spec fn inventory_key_frame(s: MenusView, i: InputView) -> bool {
    let k = keys_after_frame(s, i);
    &&& !key_down(i, KEY_ESCAPE)
    &&& exactly_one(key_down(i, k.inventory), key_down(i, k.move_right), key_down(i, k.move_left))
}

/// The inventory after a frame in which only one of its keys is pressed: the
/// inventory key opens it on the page it was closed on or closes it on the
/// page shown; while it is open, move-right and move-left turn the page
/// forward and back; while it is closed they do nothing.
pub open spec fn inventory_after_key(
    st: InventoryState,
    inventory: bool,
    right: bool,
    left: bool,
) -> InventoryState {
    match st {
        InventoryState::Closed { last_inventory_page } => if inventory {
            InventoryState::Open { inventory_page: last_inventory_page }
        } else {
            st
        },
        InventoryState::Open { inventory_page } => if inventory {
            InventoryState::Closed { last_inventory_page: inventory_page }
        } else if right {
            InventoryState::Open { inventory_page: next_page(inventory_page) }
        } else if left {
            InventoryState::Open { inventory_page: previous_page(inventory_page) }
        } else {
            st
        },
    }
}

/// During play, a frame that presses one of the inventory's keys (and not
/// Escape) moves the inventory as that key says, whatever else is pressed and
/// whether or not the pause menu is open; a key being bound on the pause
/// menu's controls page is bound first.
pub proof fn lemma_inventory_frame(s: MenusView, i: InputView)
    requires
        s.wf(),
        inventory_key_frame(s, i),
    ensures
        playing_frame(s, i).inventory_state == inventory_after_key(
            s.inventory_state,
            key_down(i, keys_after_frame(s, i).inventory),
            key_down(i, keys_after_frame(s, i).move_right),
            key_down(i, keys_after_frame(s, i).move_left),
        ),
        playing_frame(s, i).keys == keys_after_frame(s, i),
{
    reveal(playing_frame);
    assert(pause_escape(s, i) == s) by {
        reveal(pause_escape);
    }
    if s.paused {
        lemma_pause_frame_keeps(s, i);
    }
    reveal(inventory_frame);
    reveal(inventory_toggle);
    reveal(inventory_turn);
}

/// Pressing the inventory key in two frames of play leaves the inventory as
/// it was.
pub proof fn lemma_inventory_key_twice(s: MenusView, i1: InputView, i2: InputView)
    requires
        s.wf(),
        inventory_key_frame(s, i1),
        key_down(i1, keys_after_frame(s, i1).inventory),
        inventory_key_frame(fresh(playing_frame(fresh(s), i1)), i2),
        key_down(i2, keys_after_frame(fresh(playing_frame(fresh(s), i1)), i2).inventory),
    ensures
        playing_frame(fresh(playing_frame(fresh(s), i1)), i2).inventory_state == s.inventory_state,
{
    lemma_inventory_frame(fresh(s), i1);
    let s1 = fresh(playing_frame(fresh(s), i1));
    lemma_playing_frame_keeps_wf(fresh(s), i1);
    lemma_inventory_frame(s1, i2);
}

/// With the inventory open, a frame of play turning the page forward and a
/// following one turning it back show the page shown before.
pub proof fn lemma_inventory_right_then_left(s: MenusView, i1: InputView, i2: InputView)
    requires
        s.wf(),
        s.inventory_state is Open,
        inventory_key_frame(s, i1),
        key_down(i1, keys_after_frame(s, i1).move_right),
        inventory_key_frame(fresh(playing_frame(fresh(s), i1)), i2),
        key_down(i2, keys_after_frame(fresh(playing_frame(fresh(s), i1)), i2).move_left),
    ensures
        playing_frame(fresh(s), i1).inventory_state == (InventoryState::Open {
            inventory_page: next_page(s.inventory_state->inventory_page),
        }),
        playing_frame(fresh(playing_frame(fresh(s), i1)), i2).inventory_state == s.inventory_state,
{
    lemma_inventory_frame(fresh(s), i1);
    let s1 = fresh(playing_frame(fresh(s), i1));
    lemma_playing_frame_keeps_wf(fresh(s), i1);
    lemma_inventory_frame(s1, i2);
    lemma_inventory_pages_cycle(s.inventory_state->inventory_page);
}

/// The inventory's four pages form a cycle: turning forward then back (or back
/// then forward) shows the same page, and four turns forward come round again.
pub proof fn lemma_inventory_pages_cycle(p: InventoryPage)
    ensures
        previous_page(next_page(p)) == p,
        next_page(previous_page(p)) == p,
        next_page(next_page(next_page(next_page(p)))) == p,
{
}

/// The game settings page's four switches, in the order it lists them:
/// dash, sprint, wall jump, double jump.
pub open spec fn ability(a: Abilities, k: int) -> bool {
    if k == 0 {
        a.dash_enabled
    } else if k == 1 {
        a.sprint_enabled
    } else if k == 2 {
        a.wall_jump_enabled
    } else {
        a.double_jump_enabled
    }
}

/// A frame that only presses Enter, with no mouse button and the pointer
/// still: it confirms the highlighted option.
pub open spec fn confirm_only(i: InputView) -> bool {
    only_key(i, KEY_ENTER) && i.pointer is None
}

/// Confirming option `k` (0 to 3) of the title screens' game settings page
/// switches the `k`-th ability and leaves the other three as they were.
pub proof fn lemma_title_game_settings_switch(s: MenusView, i: InputView, j: int)
    requires
        s.wf(),
        s.startup_state == StartupState::GameSettings,
        s.startup_menu_role < 4,
        confirm_only(i),
        0 <= j < 4,
    ensures
        ability(startup_frame(s, i).abilities, j) == if j == s.startup_menu_role {
            !ability(s.abilities, j)
        } else {
            ability(s.abilities, j)
        },
        startup_frame(s, i).startup_state == StartupState::GameSettings,
{
    lemma_only_key(i, KEY_ENTER);
    reveal(startup_frame);
    reveal(game_page);
    reveal(hover);
    reveal(nav);
    reveal(nav_up);
    reveal(nav_down);
    reveal(startup_escape);
    reveal(game_choice);
}

/// Confirming option `k` (0 to 3) of the pause menu's game settings page
/// switches the `k`-th ability and leaves the other three as they were.
pub proof fn lemma_pause_game_settings_switch(s: MenusView, i: InputView, j: int)
    requires
        s.wf(),
        s.pause_menu_state == PauseMenuState::GameSettings,
        s.pause_menu_role < 4,
        confirm_only(i),
        0 <= j < 4,
    ensures
        ability(playing_frame(s, i).abilities, j) == if j == s.pause_menu_role {
            !ability(s.abilities, j)
        } else {
            ability(s.abilities, j)
        },
        playing_frame(s, i).pause_menu_state == PauseMenuState::GameSettings,
{
    lemma_only_key(i, KEY_ENTER);
    reveal(playing_frame);
    reveal(pause_escape);
    reveal(pause_frame);
    reveal(game_page);
    reveal(hover);
    reveal(nav);
    reveal(nav_up);
    reveal(nav_down);
    reveal(startup_escape);
    reveal(game_choice);
    reveal(inventory_frame);
    reveal(inventory_toggle);
    reveal(inventory_turn);
}

/// Confirming on the pause menu: "Resume" closes it and play goes on,
/// "Settings" opens the settings page, "Main Menu" closes it and ends the game
/// on the main menu, and "Exit" asks to quit.
pub proof fn lemma_pause_menu_confirm(s: MenusView, i: InputView)
    requires
        s.wf(),
        s.pause_menu_state == PauseMenuState::Menu,
        confirm_only(i),
    ensures
        s.pause_menu_role == 0 ==> !playing_frame(s, i).paused && playing_frame(s, i).pause_menu_state
            == PauseMenuState::Closed,
        s.pause_menu_role == 1 ==> playing_frame(s, i).paused && playing_frame(s, i).pause_menu_state
            == PauseMenuState::Settings,
        s.pause_menu_role == 2 ==> !playing_frame(s, i).paused && playing_frame(s, i).pause_menu_state
            == PauseMenuState::Closed && playing_frame(s, i).startup_state == StartupState::MainMenu
            && playing_frame(s, i).story == StoryPhase::NotPlaying,
        s.pause_menu_role == 3 ==> playing_frame(s, i).paused && playing_frame(s, i).effects.last()
            == Effect::Exit,
{
    lemma_only_key(i, KEY_ENTER);
    reveal(playing_frame);
    reveal(pause_escape);
    reveal(pause_frame);
    reveal(pause_main_page);
    reveal(hover);
    reveal(nav);
    reveal(nav_up);
    reveal(nav_down);
    reveal(pause_choice);
    reveal(inventory_frame);
    reveal(inventory_toggle);
    reveal(inventory_turn);
}

/// The action shown in each cell of the controls grid: the first column
/// holds move left, move right, look up, look down and jump; the second
/// dash/sprint, melee, ranged, interact and inventory.
pub open spec fn shown_in_grid(col: usize, row: usize, kb: Keybind) -> bool {
    &&& (col == 0 && row == 0 ==> kb == Keybind::MoveLeft)
    &&& (col == 0 && row == 1 ==> kb == Keybind::MoveRight)
    &&& (col == 0 && row == 2 ==> kb == Keybind::LookUp)
    &&& (col == 0 && row == 3 ==> kb == Keybind::LookDown)
    &&& (col == 0 && row == 4 ==> kb == Keybind::Jump)
    &&& (col == 1 && row == 0 ==> kb == Keybind::DashSprint)
    &&& (col == 1 && row == 1 ==> kb == Keybind::MeleeAttack)
    &&& (col == 1 && row == 2 ==> kb == Keybind::RangedAttack)
    &&& (col == 1 && row == 3 ==> kb == Keybind::Interact)
    &&& (col == 1 && row == 4 ==> kb == Keybind::Inventory)
}

/// Confirming a cell of the title screens' controls grid waits for a key for
/// the action shown in that cell.
pub proof fn lemma_title_controls_choice(s: MenusView, i: InputView)
    requires
        s.wf(),
        s.startup_state == StartupState::ControlsSettings,
        !s.awaiting_kb_input,
        s.controls_settings_row < 5,
        confirm_only(i),
    ensures
        startup_frame(s, i).awaiting_kb_input,
        startup_frame(s, i).startup_state == StartupState::ControlsSettings,
        shown_in_grid(
            s.controls_settings_col,
            s.controls_settings_row,
            startup_frame(s, i).kb_to_change,
        ),
        startup_frame(s, i).keys == s.keys,
{
    lemma_only_key(i, KEY_ENTER);
    reveal(startup_frame);
    reveal(controls_page);
    reveal(controls_hover);
    reveal(controls_keys);
    reveal(grid_vertical);
    reveal(grid_horizontal);
    reveal(controls_choice);
    reveal(grid_action);
}

/// Confirming a cell of the pause menu's controls grid waits for a key for the
/// action shown in that cell.
pub proof fn lemma_pause_controls_choice(s: MenusView, i: InputView)
    requires
        s.wf(),
        s.pause_menu_state == PauseMenuState::ControlsSettings,
        !s.awaiting_kb_input,
        s.pause_menu_controls_settings_row < 5,
        confirm_only(i),
    ensures
        playing_frame(s, i).awaiting_kb_input,
        playing_frame(s, i).pause_menu_state == PauseMenuState::ControlsSettings,
        shown_in_grid(
            s.pause_menu_controls_settings_col,
            s.pause_menu_controls_settings_row,
            playing_frame(s, i).kb_to_change,
        ),
        playing_frame(s, i).keys == s.keys,
{
    lemma_only_key(i, KEY_ENTER);
    reveal(playing_frame);
    reveal(pause_escape);
    reveal(pause_frame);
    reveal(controls_page);
    reveal(controls_hover);
    reveal(controls_keys);
    reveal(grid_vertical);
    reveal(grid_horizontal);
    reveal(controls_choice);
    reveal(grid_action);
    reveal(inventory_frame);
    reveal(inventory_toggle);
    reveal(inventory_turn);
}

} // verus!
