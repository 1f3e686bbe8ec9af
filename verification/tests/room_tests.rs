use game::room::{Door, EnemyType, Room, RoomError, Tile};

const SMALL_ROOM: &str = "5,3\nA,rooms/next.txt,2,4\n#####\n#A.^#\n$$$$$\n";

#[test]
fn parses_size_and_rows() {
    let room = Room::from_text(SMALL_ROOM).unwrap();
    assert_eq!(room.width(), 5);
    assert_eq!(room.height(), 3);
    assert_eq!(room.row_count(), 3);
    assert_eq!(room.row_len(0), 5);
    assert_eq!(room.row_len(2), 5);
    assert!(room.enemies().is_empty());
}

#[test]
fn classifies_each_character() {
    let room = Room::from_text(SMALL_ROOM).unwrap();
    assert_eq!(room.tile_at(0, 0), Some(Tile::GrayBrick));
    assert_eq!(room.tile_at(1, 1), Some(Tile::Door { identifier: 'A' }));
    assert_eq!(room.tile_at(2, 1), Some(Tile::Empty));
    assert_eq!(room.tile_at(3, 1), Some(Tile::Spikes));
    assert_eq!(room.tile_at(0, 2), Some(Tile::BrownBrick));
    assert_eq!(room.tile_at(5, 0), None);
    assert_eq!(room.tile_at(0, 3), None);
    assert_eq!(room.tile_at(-1, 0), None);
}

#[test]
fn letters_without_a_door_are_empty() {
    let room = Room::from_text("3,1\n\nBx#\n").unwrap();
    assert_eq!(room.tile_at(0, 0), Some(Tile::Empty));
    assert_eq!(room.tile_at(1, 0), Some(Tile::Empty));
    assert_eq!(room.tile_at(2, 0), Some(Tile::GrayBrick));
}

#[test]
fn solid_cells_and_bounds() {
    let room = Room::from_text(SMALL_ROOM).unwrap();
    assert!(room.is_solid(0, 0));
    assert!(room.is_solid(3, 1));
    assert!(room.is_solid(4, 2));
    assert!(!room.is_solid(1, 1));
    assert!(!room.is_solid(2, 1));
    assert!(!room.is_solid(-1, 0));
    assert!(!room.is_solid(6, 0));
    assert!(!room.is_solid(0, 4));
    assert!(!room.is_solid(5, 0));
}

#[test]
fn doors_and_spikes() {
    let room = Room::from_text(SMALL_ROOM).unwrap();
    assert!(room.has_tile(1, 1));
    assert!(room.is_door(1, 1));
    assert!(!room.is_door(2, 1));
    assert!(room.is_spikes(3, 1));
    assert!(!room.is_spikes(0, 0));
    let d = room.door_at(1, 1);
    assert_eq!(d.room_path, "rooms/next.txt");
    assert_eq!(d.spawn_x, 2);
    assert_eq!(d.spawn_y, 4);
}

#[test]
fn door_lookup_by_identifier() {
    let room = Room::from_text("4,2\nA,a.txt,1,1~B,b.txt,-3,7\n#AB#\n####\n").unwrap();
    let a = room.door('A').unwrap();
    assert_eq!(a.room_path, "a.txt");
    let b = room.door('B').unwrap();
    assert_eq!(b.room_path, "b.txt");
    assert_eq!(b.spawn_x, -3);
    assert_eq!(b.spawn_y, 7);
    assert!(room.door('C').is_none());
}

#[test]
fn later_door_with_same_identifier_wins() {
    let room = Room::from_text("1,1\nA,first.txt,1,1~A,second.txt,2,2\nA\n").unwrap();
    let a = room.door('A').unwrap();
    assert_eq!(a.room_path, "second.txt");
    assert_eq!(a.spawn_x, 2);
}

#[test]
fn enemies_in_header() {
    let room = Room::from_text("3,1,test/1.5/2~test/3/0\n\n...\n").unwrap();
    let es = room.enemies();
    assert_eq!(es.len(), 2);
    assert_eq!(es[0].enemy_type, EnemyType::TestEnemy);
    assert_eq!(es[0].x, "1.5");
    assert_eq!(es[0].y, "2");
    assert_eq!(es[1].x, "3");
    assert_eq!(es[1].y, "0");
    assert_eq!(EnemyType::TestEnemy.size_in_tiles(), (1, 1));
}

#[test]
fn windows_line_endings() {
    let room = Room::from_text("2,2\r\n\r\n#.\r\n.#").unwrap();
    assert_eq!(room.row_count(), 2);
    assert_eq!(room.row_len(0), 2);
    assert_eq!(room.tile_at(1, 0), Some(Tile::Empty));
    assert_eq!(room.tile_at(1, 1), Some(Tile::GrayBrick));
}

#[test]
fn error_missing_header() {
    assert_eq!(Room::from_text("").err(), Some(RoomError::MissingHeader));
}

#[test]
fn error_bad_size() {
    assert_eq!(Room::from_text("wide,3\n\n#\n").err(), Some(RoomError::BadSize));
    assert_eq!(Room::from_text("5\n\n#\n").err(), Some(RoomError::BadSize));
    assert_eq!(Room::from_text("5,99999999999\n\n#\n").err(), Some(RoomError::BadSize));
}

#[test]
fn error_missing_door_line() {
    assert_eq!(Room::from_text("5,3").err(), Some(RoomError::MissingDoorLine));
}

#[test]
fn error_bad_door() {
    assert_eq!(Room::from_text("5,3\nA,x.txt,1\n#\n").err(), Some(RoomError::BadDoor));
    assert_eq!(Room::from_text("5,3\nA,x.txt,one,1\n#\n").err(), Some(RoomError::BadDoor));
    assert_eq!(Room::from_text("5,3\n,x.txt,1,1\n#\n").err(), Some(RoomError::BadDoor));
}

#[test]
fn error_no_tile_rows() {
    assert_eq!(Room::from_text("5,3\n\n").err(), Some(RoomError::NoTileRows));
}

#[test]
fn error_bad_enemy() {
    assert_eq!(Room::from_text("5,3,dragon/1/2\n\n#\n").err(), Some(RoomError::BadEnemy));
    assert_eq!(Room::from_text("5,3,test/1\n\n#\n").err(), Some(RoomError::BadEnemy));
}

#[test]
fn new_door_keeps_its_fields() {
    let d = Door::new_door("rooms/x.txt", 3, -1);
    assert_eq!(d.room_path, "rooms/x.txt");
    assert_eq!(d.spawn_x, 3);
    assert_eq!(d.spawn_y, -1);
    let c = d.clone();
    assert_eq!(c.room_path, "rooms/x.txt");
}

#[test]
fn tile_blocking() {
    assert!(Tile::GrayBrick.blocks());
    assert!(Tile::BrownBrick.blocks());
    assert!(Tile::Spikes.blocks());
    assert!(!Tile::Empty.blocks());
    assert!(!Tile::Door { identifier: 'A' }.blocks());
}
