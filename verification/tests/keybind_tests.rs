use game::keybinds::{
    KeyBindings, Keybind, KEY_A, KEY_APOSTROPHE, KEY_D, KEY_E, KEY_LEFT_SHIFT,
    KEY_SEMICOLON, KEY_SPACE, KEY_S, KEY_T, KEY_W,
};

const KEY_J: u16 = 0x004a;
const KEY_K: u16 = 0x004b;

#[test]
fn default_bindings() {
    let k = KeyBindings::new();
    assert_eq!(k.key_for(Keybind::MoveLeft), Some(KEY_A));
    assert_eq!(k.key_for(Keybind::MoveRight), Some(KEY_D));
    assert_eq!(k.key_for(Keybind::LookUp), Some(KEY_W));
    assert_eq!(k.key_for(Keybind::LookDown), Some(KEY_S));
    assert_eq!(k.key_for(Keybind::Jump), Some(KEY_SPACE));
    assert_eq!(k.key_for(Keybind::DashSprint), Some(KEY_LEFT_SHIFT));
    assert_eq!(k.key_for(Keybind::MeleeAttack), Some(KEY_SEMICOLON));
    assert_eq!(k.key_for(Keybind::RangedAttack), Some(KEY_APOSTROPHE));
    assert_eq!(k.key_for(Keybind::Interact), Some(KEY_E));
    assert_eq!(k.key_for(Keybind::Inventory), Some(KEY_T));
    assert_eq!(k.key_for(Keybind::Unbound), None);
    assert_eq!(k.kb_map.get(&KEY_T), Some(&Keybind::Inventory));
    assert_eq!(k.kb_map.get(&KEY_J), None);
}

#[test]
fn rebinding_to_a_free_key() {
    let mut k = KeyBindings::new();
    k.rebind(Keybind::Jump, KEY_J);
    assert_eq!(k.jump, KEY_J);
    assert_eq!(k.move_left, KEY_A);
    // The old key is listed under what the new key was listed under: nothing.
    assert_eq!(k.kb_map.get(&KEY_SPACE), Some(&Keybind::Unbound));
    assert!(!k.kb_map.contains_key(&KEY_J));
}

#[test]
fn rebinding_to_a_taken_key_swaps() {
    let mut k = KeyBindings::new();
    k.rebind(Keybind::MoveLeft, KEY_D);
    assert_eq!(k.move_left, KEY_D);
    assert_eq!(k.move_right, KEY_A);
    assert_eq!(k.kb_map.get(&KEY_A), Some(&Keybind::MoveRight));
    assert_eq!(k.kb_map.get(&KEY_D), Some(&Keybind::MoveRight));
}

#[test]
fn rebinding_onto_dash_lists_the_target() {
    let mut k = KeyBindings::new();
    k.rebind(Keybind::Jump, KEY_LEFT_SHIFT);
    assert_eq!(k.jump, KEY_LEFT_SHIFT);
    assert_eq!(k.dash_sprint, KEY_SPACE);
    assert_eq!(k.kb_map.get(&KEY_LEFT_SHIFT), Some(&Keybind::Jump));
    assert_eq!(k.kb_map.get(&KEY_SPACE), Some(&Keybind::DashSprint));
}

#[test]
fn rebinding_unbound_changes_nothing() {
    let mut k = KeyBindings::new();
    k.rebind(Keybind::Unbound, KEY_K);
    assert_eq!(k.move_left, KEY_A);
    assert_eq!(k.jump, KEY_SPACE);
    assert!(!k.kb_map.contains_key(&KEY_K));
}

#[test]
fn swap_hands_the_old_key_over() {
    let mut k = KeyBindings::new();
    k.swap_keybinds(KEY_W, KEY_J, Keybind::LookUp, Keybind::Jump);
    assert_eq!(k.look_up, KEY_J);
    assert_eq!(k.kb_map.get(&KEY_W), Some(&Keybind::LookUp));
    let mut k = KeyBindings::new();
    k.swap_keybinds(KEY_W, KEY_J, Keybind::Unbound, Keybind::Jump);
    assert_eq!(k.look_up, KEY_W);
}
