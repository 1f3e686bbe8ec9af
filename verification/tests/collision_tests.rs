use game::collision::{
    enemy_floor_blocked, enemy_wall_blocked, enemy_wall_blocked_defined, player_floor_contact,
    player_floor_contact_defined, player_wall_contact, player_wall_contact_defined, Horizontal,
    Vertical,
};
use game::room::Room;

// Rows:   0 "#..#"
//         1 "#D.#"
//         2 "#D^#"
//         3 "####"
fn spike_room() -> Room {
    Room::from_text("4,4\nD,next.txt,1,2\n#..#\n#D.#\n#D^#\n####\n").unwrap()
}

#[test]
fn wall_blocks_without_damage() {
    let room = spike_room();
    assert!(player_wall_contact_defined(&room, Horizontal::Left, 0, 1, 1, 2, true, true));
    let c = player_wall_contact(&room, Horizontal::Left, 0, 1, 1, 2, true, true);
    assert!(c.blocked);
    assert!(!c.spike_damage);
    assert!(c.door.is_none());
}

#[test]
fn spikes_in_the_wall_hurt() {
    let room = spike_room();
    assert!(player_wall_contact_defined(&room, Horizontal::Right, 2, 1, 1, 2, true, true));
    let c = player_wall_contact(&room, Horizontal::Right, 2, 1, 1, 2, true, true);
    assert!(c.blocked);
    assert!(c.spike_damage);
    let c = player_wall_contact(&room, Horizontal::Right, 2, 1, 1, 2, true, false);
    assert!(c.blocked);
    assert!(!c.spike_damage);
}

#[test]
fn walking_through_a_door() {
    let room = spike_room();
    assert!(player_wall_contact_defined(&room, Horizontal::Right, 2, 1, 1, 1, true, true));
    let c = player_wall_contact(&room, Horizontal::Right, 2, 1, 1, 1, true, true);
    assert!(!c.blocked);
    assert!(!c.spike_damage);
    let d = c.door.unwrap();
    assert_eq!(d.room_path, "next.txt");
    assert_eq!(d.spawn_x, 1);
    assert_eq!(d.spawn_y, 2);
}

#[test]
fn in_the_air_the_head_must_be_in_the_door_too() {
    let room = spike_room();
    // Head in row 0 (open air), middle and feet in door cells.
    assert!(player_wall_contact_defined(&room, Horizontal::Right, 2, 0, 1, 1, false, true));
    let c = player_wall_contact(&room, Horizontal::Right, 2, 0, 1, 1, false, true);
    assert!(!c.blocked);
    assert!(c.door.is_none());
    let c = player_wall_contact(&room, Horizontal::Right, 2, 1, 1, 1, false, true);
    assert!(c.door.is_some());
}

#[test]
fn wall_contact_outside_the_grid_is_not_defined() {
    let room = spike_room();
    assert!(!player_wall_contact_defined(&room, Horizontal::Right, 9, 1, 1, 1, true, true));
}

#[test]
fn landing_on_bricks() {
    let room = spike_room();
    assert!(player_floor_contact_defined(&room, Vertical::Falling, 1, 2, 3));
    let c = player_floor_contact(&room, Vertical::Falling, 1, 2, 3, true);
    assert!(c.blocked);
    assert!(!c.spike_damage);
    assert!(c.door.is_none());
}

#[test]
fn landing_on_spikes() {
    let room = spike_room();
    assert!(player_floor_contact_defined(&room, Vertical::Falling, 2, 2, 2));
    let c = player_floor_contact(&room, Vertical::Falling, 2, 2, 2, true);
    assert!(c.blocked);
    assert!(c.spike_damage);
    // Only one foot over the spikes: no damage.
    let c = player_floor_contact(&room, Vertical::Falling, 1, 2, 3, true);
    assert!(!c.spike_damage);
}

#[test]
fn rising_out_of_a_door() {
    let room = spike_room();
    assert!(player_floor_contact_defined(&room, Vertical::Rising, 1, 1, 1));
    let c = player_floor_contact(&room, Vertical::Rising, 1, 1, 1, true);
    assert!(!c.blocked);
    let d = c.door.unwrap();
    assert_eq!(d.room_path, "next.txt");
}

#[test]
fn enemies_stop_at_walls_and_spikes() {
    let room = spike_room();
    assert!(enemy_wall_blocked_defined(&room, 2, 2, 2));
    assert!(enemy_wall_blocked(&room, 2, 2, 2));
    assert!(enemy_wall_blocked_defined(&room, 2, 1, 1));
    assert!(!enemy_wall_blocked(&room, 2, 1, 1));
    assert!(enemy_wall_blocked(&room, 0, 1, 1));
    assert!(!enemy_wall_blocked_defined(&room, 7, 1, 1));
}

#[test]
fn enemies_land_on_solid_cells() {
    let room = spike_room();
    assert!(enemy_floor_blocked(&room, 1, 2, 3));
    assert!(!enemy_floor_blocked(&room, 1, 2, 1));
    assert!(enemy_floor_blocked(&room, 2, 2, 2));
}
