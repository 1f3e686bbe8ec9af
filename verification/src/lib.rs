use vstd::prelude::*;

pub mod collision;
pub mod input;
pub mod keybinds;
pub mod laws;
pub mod menu_laws;
pub mod menu_steps;
pub mod menus;
pub mod player;
pub mod room;
pub mod story;
pub mod text;
pub mod theme;

verus! {
}
