use std::collections::HashMap;
use vstd::prelude::*;

verus! {

broadcast use vstd::std_specs::hash::group_hash_axioms;

// Key codes: the values that the windowing layer gives its keys.
pub const KEY_SPACE: u16 = 0x0020;

pub const KEY_APOSTROPHE: u16 = 0x0027;

pub const KEY_SEMICOLON: u16 = 0x003b;

pub const KEY_A: u16 = 0x0041;

pub const KEY_D: u16 = 0x0044;

pub const KEY_E: u16 = 0x0045;

pub const KEY_S: u16 = 0x0053;

pub const KEY_T: u16 = 0x0054;

pub const KEY_W: u16 = 0x0057;

pub const KEY_ENTER: u16 = 0xff0d;

pub const KEY_ESCAPE: u16 = 0xff1b;

pub const KEY_LEFT_SHIFT: u16 = 0xffe1;

/// An action that a key can be bound to.
#[derive(Clone, Copy, Debug, PartialEq, Eq, Structural)]
pub enum Keybind {
    Unbound,
    MoveLeft,
    MoveRight,
    LookUp,
    LookDown,
    Jump,
    DashSprint,
    MeleeAttack,
    RangedAttack,
    Interact,
    Inventory,
}

/// The keys bound to each action, and the table that rebinding consults to
/// find which action a pressed key already serves.
pub struct KeyBindings {
    pub move_left: u16,
    pub move_right: u16,
    pub look_up: u16,
    pub look_down: u16,
    pub jump: u16,
    pub dash_sprint: u16,
    pub melee_attack: u16,
    pub ranged_attack: u16,
    pub interact: u16,
    pub inventory: u16,
    pub kb_map: HashMap<u16, Keybind>,
}

pub struct KeyBindingsView {
    pub move_left: u16,
    pub move_right: u16,
    pub look_up: u16,
    pub look_down: u16,
    pub jump: u16,
    pub dash_sprint: u16,
    pub melee_attack: u16,
    pub ranged_attack: u16,
    pub interact: u16,
    pub inventory: u16,
    pub map: Map<u16, Keybind>,
}

impl View for KeyBindings {
    type V = KeyBindingsView;

    open spec fn view(&self) -> KeyBindingsView {
        KeyBindingsView {
            move_left: self.move_left,
            move_right: self.move_right,
            look_up: self.look_up,
            look_down: self.look_down,
            jump: self.jump,
            dash_sprint: self.dash_sprint,
            melee_attack: self.melee_attack,
            ranged_attack: self.ranged_attack,
            interact: self.interact,
            inventory: self.inventory,
            map: self.kb_map@,
        }
    }
}

/// The key bound to an action (none for `Unbound`).
pub open spec fn binding(k: KeyBindingsView, b: Keybind) -> Option<u16> {
    match b {
        Keybind::Unbound => None,
        Keybind::MoveLeft => Some(k.move_left),
        Keybind::MoveRight => Some(k.move_right),
        Keybind::LookUp => Some(k.look_up),
        Keybind::LookDown => Some(k.look_down),
        Keybind::Jump => Some(k.jump),
        Keybind::DashSprint => Some(k.dash_sprint),
        Keybind::MeleeAttack => Some(k.melee_attack),
        Keybind::RangedAttack => Some(k.ranged_attack),
        Keybind::Interact => Some(k.interact),
        Keybind::Inventory => Some(k.inventory),
    }
}

/// `k` with action `b` bound to `key`.
pub open spec fn with_binding(k: KeyBindingsView, b: Keybind, key: u16) -> KeyBindingsView {
    match b {
        Keybind::Unbound => k,
        Keybind::MoveLeft => KeyBindingsView { move_left: key, ..k },
        Keybind::MoveRight => KeyBindingsView { move_right: key, ..k },
        Keybind::LookUp => KeyBindingsView { look_up: key, ..k },
        Keybind::LookDown => KeyBindingsView { look_down: key, ..k },
        Keybind::Jump => KeyBindingsView { jump: key, ..k },
        Keybind::DashSprint => KeyBindingsView { dash_sprint: key, ..k },
        Keybind::MeleeAttack => KeyBindingsView { melee_attack: key, ..k },
        Keybind::RangedAttack => KeyBindingsView { ranged_attack: key, ..k },
        Keybind::Interact => KeyBindingsView { interact: key, ..k },
        Keybind::Inventory => KeyBindingsView { inventory: key, ..k },
    }
}

/// The action that the table lists for `key` (`Unbound` when it lists none).
pub open spec fn listed_action(k: KeyBindingsView, key: u16) -> Keybind {
    if k.map.dom().contains(key) {
        k.map[key]
    } else {
        Keybind::Unbound
    }
}

/// The pressed key was listed under `taken`: that action takes over the key
/// that `target` had. The table then lists the pressed key under `taken`, or
/// under `target` when `taken` is the dash/sprint action.
pub open spec fn hand_over(
    k: KeyBindingsView,
    key: u16,
    old_key: u16,
    taken: Keybind,
    target: Keybind,
) -> KeyBindingsView {
    if taken == Keybind::Unbound {
        k
    } else {
        let k1 = with_binding(k, taken, old_key);
        let listed = if taken == Keybind::DashSprint {
            target
        } else {
            taken
        };
        KeyBindingsView { map: k1.map.insert(key, listed), ..k1 }
    }
}

/// Binding `target` to `key`: the target takes the key; if the table lists the
/// key under some action, that action gets the target's old key; finally the
/// table lists the target's old key under the action it listed for `key`.
pub open spec fn rebind_spec(k: KeyBindingsView, target: Keybind, key: u16) -> KeyBindingsView {
    if target == Keybind::Unbound {
        k
    } else {
        let old_key = binding(k, target)->0;
        let taken = listed_action(k, key);
        let k1 = with_binding(k, target, key);
        let k2 = if k.map.dom().contains(key) {
            hand_over(k1, key, old_key, taken, target)
        } else {
            k1
        };
        KeyBindingsView { map: k2.map.insert(old_key, taken), ..k2 }
    }
}

/// A key that the menus keep for themselves: Enter confirms and Escape goes back.
pub open spec fn is_menu_key(key: u16) -> bool {
    key == KEY_ENTER || key == KEY_ESCAPE
}

/// No action is bound to Enter or Escape.
pub open spec fn menu_keys_free(k: KeyBindingsView) -> bool {
    &&& !is_menu_key(k.move_left)
    &&& !is_menu_key(k.move_right)
    &&& !is_menu_key(k.look_up)
    &&& !is_menu_key(k.look_down)
    &&& !is_menu_key(k.jump)
    &&& !is_menu_key(k.dash_sprint)
    &&& !is_menu_key(k.melee_attack)
    &&& !is_menu_key(k.ranged_attack)
    &&& !is_menu_key(k.interact)
    &&& !is_menu_key(k.inventory)
}

proof fn lemma_binding_not_menu_key(k: KeyBindingsView, b: Keybind)
    requires
        menu_keys_free(k),
        b != Keybind::Unbound,
    ensures
        !is_menu_key(binding(k, b)->0),
{
}

proof fn lemma_with_binding_keeps_free(k: KeyBindingsView, b: Keybind, key: u16)
    requires
        menu_keys_free(k),
        !is_menu_key(key),
    ensures
        menu_keys_free(with_binding(k, b, key)),
{
}

/// Binding an action to a key other than Enter or Escape leaves both of them
/// unbound.
pub proof fn lemma_rebind_keeps_menu_keys_free(k: KeyBindingsView, target: Keybind, key: u16)
    requires
        menu_keys_free(k),
        !is_menu_key(key),
    ensures
        menu_keys_free(rebind_spec(k, target, key)),
{
    if target != Keybind::Unbound {
        let old_key = binding(k, target)->0;
        let taken = listed_action(k, key);
        let k1 = with_binding(k, target, key);
        lemma_binding_not_menu_key(k, target);
        lemma_with_binding_keeps_free(k, target, key);
        if k.map.dom().contains(key) && taken != Keybind::Unbound {
            lemma_with_binding_keeps_free(k1, taken, old_key);
        }
    }
}

/// W/A/S/D to look and move, Space to jump, left Shift to dash and sprint,
/// `;` and `'` to attack, E to interact and T for the inventory; the table
/// lists each of these keys under its action.
pub open spec fn default_bindings() -> KeyBindingsView {
    KeyBindingsView {
        move_left: KEY_A,
        move_right: KEY_D,
        look_up: KEY_W,
        look_down: KEY_S,
        jump: KEY_SPACE,
        dash_sprint: KEY_LEFT_SHIFT,
        melee_attack: KEY_SEMICOLON,
        ranged_attack: KEY_APOSTROPHE,
        interact: KEY_E,
        inventory: KEY_T,
        map: Map::<u16, Keybind>::empty().insert(KEY_A, Keybind::MoveLeft).insert(
            KEY_D,
            Keybind::MoveRight,
        ).insert(KEY_W, Keybind::LookUp).insert(KEY_S, Keybind::LookDown).insert(
            KEY_SPACE,
            Keybind::Jump,
        ).insert(KEY_LEFT_SHIFT, Keybind::DashSprint).insert(KEY_SEMICOLON, Keybind::MeleeAttack).insert(
            KEY_APOSTROPHE,
            Keybind::RangedAttack,
        ).insert(KEY_E, Keybind::Interact).insert(KEY_T, Keybind::Inventory),
    }
}

impl KeyBindings {
    /// W/A/S/D to look and move, Space to jump, left Shift to dash and sprint,
    /// `;` and `'` to attack, E to interact and T for the inventory.
    pub fn new() -> (k: Self)
        ensures
            k@ == default_bindings(),
    {
        let mut kb_map: HashMap<u16, Keybind> = HashMap::new();
        kb_map.insert(KEY_A, Keybind::MoveLeft);
        kb_map.insert(KEY_D, Keybind::MoveRight);
        kb_map.insert(KEY_W, Keybind::LookUp);
        kb_map.insert(KEY_S, Keybind::LookDown);
        kb_map.insert(KEY_SPACE, Keybind::Jump);
        kb_map.insert(KEY_LEFT_SHIFT, Keybind::DashSprint);
        kb_map.insert(KEY_SEMICOLON, Keybind::MeleeAttack);
        kb_map.insert(KEY_APOSTROPHE, Keybind::RangedAttack);
        kb_map.insert(KEY_E, Keybind::Interact);
        kb_map.insert(KEY_T, Keybind::Inventory);
        KeyBindings {
            move_left: KEY_A,
            move_right: KEY_D,
            look_up: KEY_W,
            look_down: KEY_S,
            jump: KEY_SPACE,
            dash_sprint: KEY_LEFT_SHIFT,
            melee_attack: KEY_SEMICOLON,
            ranged_attack: KEY_APOSTROPHE,
            interact: KEY_E,
            inventory: KEY_T,
            kb_map,
        }
    }

    /// The key bound to `b`.
    pub fn key_for(&self, b: Keybind) -> (r: Option<u16>)
        ensures
            r == binding(self@, b),
    {
        match b {
            Keybind::Unbound => None,
            Keybind::MoveLeft => Some(self.move_left),
            Keybind::MoveRight => Some(self.move_right),
            Keybind::LookUp => Some(self.look_up),
            Keybind::LookDown => Some(self.look_down),
            Keybind::Jump => Some(self.jump),
            Keybind::DashSprint => Some(self.dash_sprint),
            Keybind::MeleeAttack => Some(self.melee_attack),
            Keybind::RangedAttack => Some(self.ranged_attack),
            Keybind::Interact => Some(self.interact),
            Keybind::Inventory => Some(self.inventory),
        }
    }

    fn set_key(&mut self, b: Keybind, key: u16)
        ensures
            final(self)@ == with_binding(old(self)@, b, key),
    {
        match b {
            Keybind::Unbound => {},
            Keybind::MoveLeft => self.move_left = key,
            Keybind::MoveRight => self.move_right = key,
            Keybind::LookUp => self.look_up = key,
            Keybind::LookDown => self.look_down = key,
            Keybind::Jump => self.jump = key,
            Keybind::DashSprint => self.dash_sprint = key,
            Keybind::MeleeAttack => self.melee_attack = key,
            Keybind::RangedAttack => self.ranged_attack = key,
            Keybind::Interact => self.interact = key,
            Keybind::Inventory => self.inventory = key,
        }
    }

    /// Binds `target` to `key` (see [`rebind_spec`]).
    pub fn swap_keybinds(&mut self, key: u16, old_key: u16, taken: Keybind, target: Keybind)
        ensures
            final(self)@ == hand_over(old(self)@, key, old_key, taken, target),
    {
        if taken != Keybind::Unbound {
            self.set_key(taken, old_key);
            let listed = if taken == Keybind::DashSprint {
                target
            } else {
                taken
            };
            self.kb_map.insert(key, listed);
        }
    }

    /// Binds `target` to `key`, handing the target's old key to whatever action
    /// the table lists for `key` (see [`rebind_spec`]).
    pub fn rebind(&mut self, target: Keybind, key: u16)
        ensures
            final(self)@ == rebind_spec(old(self)@, target, key),
    {
        let taken = match self.kb_map.get(&key) {
            Some(b) => *b,
            None => Keybind::Unbound,
        };
        let listed = self.kb_map.contains_key(&key);
        let old_key = match self.key_for(target) {
            Some(k) => k,
            None => {
                return;
            },
        };
        self.set_key(target, key);
        if listed {
            self.swap_keybinds(key, old_key, taken, target);
        }
        self.kb_map.insert(old_key, taken);
    }
}

} // verus!
