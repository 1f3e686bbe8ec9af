use game::input::{row_at_exec, volume_level_at_exec, FrameInput, ROW_HEIGHT};
use game::menus::{Abilities, SoundSettings};
use game::player::{
    attack_direction_for, walking_animation_row, AttackDirection, XDirection, YDirection,
};
use game::story::StoryPhase;
use game::theme::{fallback_pixel, fallback_pixels, Rgba, UiPalette, UiPreferences, FALLBACK_SIZE};

#[test]
fn attacks_follow_the_vertical_look_first() {
    assert_eq!(attack_direction_for(XDirection::Left, YDirection::Up), AttackDirection::Up);
    assert_eq!(attack_direction_for(XDirection::Right, YDirection::Down), AttackDirection::Down);
    assert_eq!(attack_direction_for(XDirection::Right, YDirection::Level), AttackDirection::Right);
    assert_eq!(attack_direction_for(XDirection::Left, YDirection::Level), AttackDirection::Left);
}

#[test]
fn walking_rows() {
    assert_eq!(walking_animation_row(XDirection::Left, true, true, false, false), Some(0));
    assert_eq!(walking_animation_row(XDirection::Right, true, true, false, false), Some(1));
    assert_eq!(walking_animation_row(XDirection::Left, true, false, true, false), Some(2));
    assert_eq!(walking_animation_row(XDirection::Right, true, false, true, false), Some(3));
    assert_eq!(walking_animation_row(XDirection::Left, true, false, false, true), Some(4));
    assert_eq!(walking_animation_row(XDirection::Right, true, false, false, true), Some(5));
    assert_eq!(walking_animation_row(XDirection::Right, true, false, false, false), None);
    assert_eq!(walking_animation_row(XDirection::Right, false, true, false, false), None);
}

#[test]
fn menu_rows_under_the_pointer() {
    assert_eq!(ROW_HEIGHT, 380);
    assert_eq!(row_at_exec(3660, 3270, 3), Some(1));
    assert_eq!(row_at_exec(3280, 3270, 3), Some(0));
    assert_eq!(row_at_exec(3270 + 380, 3270, 3), None);
    assert_eq!(row_at_exec(3270, 3270, 3), None);
    assert_eq!(row_at_exec(3270 + 3 * 380 + 5, 3270, 3), None);
    assert_eq!(row_at_exec(100, 3270, 3), None);
}

#[test]
fn slider_levels_under_the_pointer() {
    assert_eq!(volume_level_at_exec(4880), None);
    assert_eq!(volume_level_at_exec(5000), Some(0));
    assert_eq!(volume_level_at_exec(5224 + 10), Some(1));
    assert_eq!(volume_level_at_exec(5224 + 488 * 2 + 10), Some(3));
    assert_eq!(volume_level_at_exec(5224 + 488), None);
    assert_eq!(volume_level_at_exec(9900), Some(10));
    assert_eq!(volume_level_at_exec(10020), None);
}

#[test]
fn pressed_keys() {
    let i = FrameInput {
        pressed: vec![0x41, 0x20],
        last_key: Some(0x20),
        left_click: false,
        right_click: false,
        pointer: None,
    };
    assert!(i.is_pressed(0x41));
    assert!(i.is_pressed(0x20));
    assert!(!i.is_pressed(0x44));
}

#[test]
fn story_starts_outside_play_and_stays() {
    let mut s = StoryPhase::new_game();
    assert_eq!(s, StoryPhase::NotPlaying);
    s.update();
    assert_eq!(s, StoryPhase::NotPlaying);
    let mut p = StoryPhase::Playing;
    p.update();
    assert_eq!(p, StoryPhase::Playing);
}

#[test]
fn defaults_for_sound_and_abilities() {
    let s = SoundSettings::new();
    assert!(s.menu_music_settings_toggle && s.game_music_settings_toggle);
    assert!(s.ambient_sounds_settings_toggle && s.footsteps_settings_toggle);
    assert!(s.menu_clicks_settings_toggle);
    assert_eq!((s.music_volume, s.sfx_volume, s.menu_clicks_volume), (10, 10, 10));
    let a = Abilities::new();
    assert!(a.dash_enabled && a.sprint_enabled && a.wall_jump_enabled && a.double_jump_enabled);
}

#[test]
fn palettes() {
    let p = UiPalette::standard();
    assert_eq!(p.panel_bg, Rgba { r: 10, g: 12, b: 24, a: 245 });
    assert_eq!(p.focus_ring, Rgba { r: 255, g: 240, b: 120, a: 255 });
    let h = UiPalette::high_contrast();
    assert_eq!(h.panel_bg, Rgba { r: 0, g: 0, b: 0, a: 250 });
    assert_eq!(h.panel_border, Rgba { r: 255, g: 255, b: 100, a: 255 });
    let prefs = UiPreferences::default();
    assert!(!prefs.high_contrast && !prefs.reduced_motion);
    assert_eq!(prefs.palette(), p);
    let hc = UiPreferences { high_contrast: true, reduced_motion: false };
    assert_eq!(hc.palette(), h);
}

#[test]
fn fallback_sprite() {
    let red = Rgba { r: 255, g: 0, b: 0, a: 255 };
    let rim = Rgba { r: 255, g: 130, b: 130, a: 255 };
    let clear = Rgba { r: 0, g: 0, b: 0, a: 0 };
    assert_eq!(fallback_pixel(32, 32), red);
    assert_eq!(fallback_pixel(32, 16), rim);
    assert_eq!(fallback_pixel(40, 42), rim);
    assert_eq!(fallback_pixel(32, 13), clear);
    assert_eq!(fallback_pixel(0, 0), clear);
    let px = fallback_pixels();
    assert_eq!(px.len(), (FALLBACK_SIZE * FALLBACK_SIZE) as usize);
    assert_eq!(px[32 * 64 + 32], red);
    assert_eq!(px[16 * 64 + 32], rim);
    assert_eq!(px[0], clear);
    assert_eq!(px[42 * 64 + 40], rim);
}
