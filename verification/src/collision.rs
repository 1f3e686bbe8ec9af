use vstd::prelude::*;

use crate::room::{Door, DoorView, Room, RoomModel, Tile};

verus! {

// Tile-level collision decisions. The caller turns positions into tile
// coordinates; these functions decide, from the room's cells, whether the
// move is blocked, whether spikes hurt, and whether a door is entered.
/// Direction of a horizontal move.
#[derive(Clone, Copy, Debug, PartialEq, Eq, Structural)]
pub enum Horizontal {
    Right,
    Left,
}

/// Direction of a vertical move.
#[derive(Clone, Copy, Debug, PartialEq, Eq, Structural)]
pub enum Vertical {
    Falling,
    Rising,
}

/// What the player meets when moving into a column or row of cells.
#[derive(Debug)]
pub struct Contact {
    /// The cells ahead block the move.
    pub blocked: bool,
    /// The player loses a life to spikes.
    pub spike_damage: bool,
    /// The player walks through this door.
    pub door: Option<Door>,
}

/// The column that a horizontal door is looked for in: the one the player
/// still stands in.
pub open spec fn door_column(dir: Horizontal, column: int) -> int {
    match dir {
        Horizontal::Right => column - 1,
        Horizontal::Left => column + 1,
    }
}

pub open spec fn wall_solid(m: RoomModel, column: int, top: int, middle: int, bottom: int) -> bool {
    m.is_solid(column, top) || m.is_solid(column, bottom) || m.is_solid(column, middle)
}

pub open spec fn wall_spikes(m: RoomModel, column: int, top: int, middle: int, bottom: int) -> bool {
    m.is_spikes(column, top) || m.is_spikes(column, bottom) || m.is_spikes(column, middle)
}

/// On the ground a door needs the player's feet and middle in door cells; in
/// the air the head too.
pub open spec fn wall_door(
    m: RoomModel,
    dc: int,
    top: int,
    middle: int,
    bottom: int,
    on_ground: bool,
) -> bool {
    if on_ground {
        m.is_door(dc, bottom) && m.is_door(dc, middle)
    } else {
        m.is_door(dc, bottom) && m.is_door(dc, middle) && m.is_door(dc, top)
    }
}

/// The cells that a horizontal move reads, in the order it reads them, all
/// exist: the player's spike check reads the blocking column's cells, the door
/// check the cells of the column the player stands in.
pub open spec fn wall_contact_defined(
    m: RoomModel,
    dir: Horizontal,
    column: int,
    top: int,
    middle: int,
    bottom: int,
    on_ground: bool,
    can_take_damage: bool,
) -> bool {
    let dc = door_column(dir, column);
    if wall_solid(m, column, top, middle, bottom) {
        can_take_damage ==> (m.has_tile(column, top) && (!m.is_spikes(column, top) ==> (m.has_tile(
            column,
            bottom,
        ) && (!m.is_spikes(column, bottom) ==> m.has_tile(column, middle)))))
    } else {
        m.has_tile(dc, bottom) && (m.is_door(dc, bottom) ==> (m.has_tile(dc, middle) && ((!on_ground
            && m.is_door(dc, middle)) ==> m.has_tile(dc, top))))
    }
}

/// The door cells that a vertical move checks are the row it leaves.
pub open spec fn door_row(dir: Vertical, row: int) -> int {
    match dir {
        Vertical::Falling => row - 1,
        Vertical::Rising => row + 1,
    }
}

pub open spec fn floor_solid(m: RoomModel, left: int, right: int, row: int) -> bool {
    m.is_solid(left, row) || m.is_solid(right, row)
}

pub open spec fn floor_contact_defined(
    m: RoomModel,
    dir: Vertical,
    left: int,
    right: int,
    row: int,
) -> bool {
    let dr = door_row(dir, row);
    if floor_solid(m, left, right, row) {
        m.has_tile(left, row) && (m.is_spikes(left, row) ==> m.has_tile(right, row))
    } else {
        m.has_tile(left, dr) && (m.is_door(left, dr) ==> m.has_tile(right, dr))
    }
}

/// An enemy is stopped by solid cells and by spikes.
pub open spec fn enemy_wall_blocked_spec(m: RoomModel, column: int, top: int, bottom: int) -> bool {
    m.is_solid(column, top) || m.is_solid(column, bottom) || m.is_spikes(column, top)
        || m.is_spikes(column, bottom)
}

pub open spec fn enemy_wall_defined(m: RoomModel, column: int, top: int, bottom: int) -> bool {
    !(m.is_solid(column, top) || m.is_solid(column, bottom)) ==> (m.has_tile(column, top) && (
    !m.is_spikes(column, top) ==> m.has_tile(column, bottom)))
}

/// Whether [`player_wall_contact`] can read all the cells it needs.
pub fn player_wall_contact_defined(
    room: &Room,
    dir: Horizontal,
    column: i32,
    top: i32,
    middle: i32,
    bottom: i32,
    on_ground: bool,
    can_take_damage: bool,
) -> (b: bool)
    requires
        i32::MIN < column < i32::MAX,
    ensures
        b == wall_contact_defined(
            room@,
            dir,
            column as int,
            top as int,
            middle as int,
            bottom as int,
            on_ground,
            can_take_damage,
        ),
{
    let dc = match dir {
        Horizontal::Right => column - 1,
        Horizontal::Left => column + 1,
    };
    if room.is_solid(column, top) || room.is_solid(column, bottom) || room.is_solid(column, middle) {
        if !can_take_damage {
            return true;
        }
        if !room.has_tile(column, top) {
            return false;
        }
        if room.is_spikes(column, top) {
            return true;
        }
        if !room.has_tile(column, bottom) {
            return false;
        }
        if room.is_spikes(column, bottom) {
            return true;
        }
        room.has_tile(column, middle)
    } else {
        if !room.has_tile(dc, bottom) {
            return false;
        }
        if !room.is_door(dc, bottom) {
            return true;
        }
        if !room.has_tile(dc, middle) {
            return false;
        }
        if on_ground || !room.is_door(dc, middle) {
            return true;
        }
        room.has_tile(dc, top)
    }
}

/// The player moves sideways into `column` with head, middle and feet in rows
/// `top`, `middle` and `bottom`. Solid cells block; a blocked player who can
/// take damage is hurt by any spikes among them. Unblocked, the player walks
/// through the door of the column it stands in when enough of its body is in
/// door cells.
pub fn player_wall_contact(
    room: &Room,
    dir: Horizontal,
    column: i32,
    top: i32,
    middle: i32,
    bottom: i32,
    on_ground: bool,
    can_take_damage: bool,
) -> (c: Contact)
    requires
        i32::MIN < column < i32::MAX,
        wall_contact_defined(
            room@,
            dir,
            column as int,
            top as int,
            middle as int,
            bottom as int,
            on_ground,
            can_take_damage,
        ),
    ensures
        c.blocked == (room@.is_solid(column as int, top as int) || room@.is_solid(
            column as int,
            middle as int,
        ) || room@.is_solid(column as int, bottom as int)),
        c.spike_damage == (c.blocked && can_take_damage && (room@.tile_at(column as int, top as int)
            == Some(Tile::Spikes) || room@.tile_at(column as int, middle as int) == Some(
            Tile::Spikes,
        ) || room@.tile_at(column as int, bottom as int) == Some(Tile::Spikes))),
        c.blocked == wall_solid(room@, column as int, top as int, middle as int, bottom as int),
        c.spike_damage == (c.blocked && can_take_damage && wall_spikes(
            room@,
            column as int,
            top as int,
            middle as int,
            bottom as int,
        )),
        match c.door {
            Some(d) => !c.blocked && wall_door(
                room@,
                door_column(dir, column as int),
                top as int,
                middle as int,
                bottom as int,
                on_ground,
            ) && d@ == room@.door_at(door_column(dir, column as int), bottom as int),
            None => c.blocked || !wall_door(
                room@,
                door_column(dir, column as int),
                top as int,
                middle as int,
                bottom as int,
                on_ground,
            ),
        },
{
    let dc = match dir {
        Horizontal::Right => column - 1,
        Horizontal::Left => column + 1,
    };
    if room.is_solid(column, top) || room.is_solid(column, bottom) || room.is_solid(column, middle) {
        let spike_damage = can_take_damage && (room.is_spikes(column, top) || room.is_spikes(
            column,
            bottom,
        ) || room.is_spikes(column, middle));
        Contact { blocked: true, spike_damage, door: None }
    } else {
        let enters = if on_ground {
            room.is_door(dc, bottom) && room.is_door(dc, middle)
        } else {
            room.is_door(dc, bottom) && room.is_door(dc, middle) && room.is_door(dc, top)
        };
        let door = if enters {
            Some(room.door_at(dc, bottom))
        } else {
            None
        };
        Contact { blocked: false, spike_damage: false, door }
    }
}

/// Whether [`player_floor_contact`] can read all the cells it needs.
pub fn player_floor_contact_defined(room: &Room, dir: Vertical, left: i32, right: i32, row: i32) -> (b:
    bool)
    requires
        i32::MIN < row < i32::MAX,
    ensures
        b == floor_contact_defined(room@, dir, left as int, right as int, row as int),
{
    let dr = match dir {
        Vertical::Falling => row - 1,
        Vertical::Rising => row + 1,
    };
    if room.is_solid(left, row) || room.is_solid(right, row) {
        if !room.has_tile(left, row) {
            return false;
        }
        !room.is_spikes(left, row) || room.has_tile(right, row)
    } else {
        if !room.has_tile(left, dr) {
            return false;
        }
        !room.is_door(left, dr) || room.has_tile(right, dr)
    }
}

/// The player, spanning columns `left..=right`, falls onto or rises into
/// `row`. Solid cells stop the move; spikes under (or over) both columns hurt
/// a player who can take damage. Unblocked, the player goes through a door
/// when both columns of the row it leaves are door cells.
pub fn player_floor_contact(
    room: &Room,
    dir: Vertical,
    left: i32,
    right: i32,
    row: i32,
    can_take_damage: bool,
) -> (c: Contact)
    requires
        i32::MIN < row < i32::MAX,
        floor_contact_defined(room@, dir, left as int, right as int, row as int),
    ensures
        c.blocked == (room@.is_solid(left as int, row as int) || room@.is_solid(
            right as int,
            row as int,
        )),
        c.spike_damage == (c.blocked && can_take_damage && room@.tile_at(left as int, row as int)
            == Some(Tile::Spikes) && room@.tile_at(right as int, row as int) == Some(
            Tile::Spikes,
        )),
        c.blocked == floor_solid(room@, left as int, right as int, row as int),
        c.spike_damage == (c.blocked && room@.is_spikes(left as int, row as int)
            && room@.is_spikes(right as int, row as int) && can_take_damage),
        match c.door {
            Some(d) => !c.blocked && room@.is_door(left as int, door_row(dir, row as int))
                && room@.is_door(right as int, door_row(dir, row as int)) && d@ == room@.door_at(
                left as int,
                door_row(dir, row as int),
            ),
            None => c.blocked || !(room@.is_door(left as int, door_row(dir, row as int))
                && room@.is_door(right as int, door_row(dir, row as int))),
        },
{
    let dr = match dir {
        Vertical::Falling => row - 1,
        Vertical::Rising => row + 1,
    };
    if room.is_solid(left, row) || room.is_solid(right, row) {
        let spike_damage = room.is_spikes(left, row) && room.is_spikes(right, row)
            && can_take_damage;
        Contact { blocked: true, spike_damage, door: None }
    } else {
        let door = if room.is_door(left, dr) && room.is_door(right, dr) {
            Some(room.door_at(left, dr))
        } else {
            None
        };
        Contact { blocked: false, spike_damage: false, door }
    }
}

/// Whether [`enemy_wall_blocked`] can read all the cells it needs.
pub fn enemy_wall_blocked_defined(room: &Room, column: i32, top: i32, bottom: i32) -> (b: bool)
    ensures
        b == enemy_wall_defined(room@, column as int, top as int, bottom as int),
{
    if room.is_solid(column, top) || room.is_solid(column, bottom) {
        return true;
    }
    if !room.has_tile(column, top) {
        return false;
    }
    room.is_spikes(column, top) || room.has_tile(column, bottom)
}

/// A one-tile-tall enemy moving sideways into `column`, its top and bottom in
/// rows `top` and `bottom`, is stopped by solid cells and spikes.
pub fn enemy_wall_blocked(room: &Room, column: i32, top: i32, bottom: i32) -> (b: bool)
    requires
        enemy_wall_defined(room@, column as int, top as int, bottom as int),
    ensures
        b == (room@.is_solid(column as int, top as int) || room@.is_solid(column as int, bottom as int)
            || room@.tile_at(column as int, top as int) == Some(Tile::Spikes) || room@.tile_at(
            column as int,
            bottom as int,
        ) == Some(Tile::Spikes)),
        b == enemy_wall_blocked_spec(room@, column as int, top as int, bottom as int),
{
    room.is_solid(column, top) || room.is_solid(column, bottom) || room.is_spikes(column, top)
        || room.is_spikes(column, bottom)
}

/// An enemy spanning columns `left..=right` lands on, or bumps into, `row`
/// when either of its cells there is solid.
pub fn enemy_floor_blocked(room: &Room, left: i32, right: i32, row: i32) -> (b: bool)
    ensures
        b == (room@.is_solid(left as int, row as int) || room@.is_solid(right as int, row as int)),
        b == floor_solid(room@, left as int, right as int, row as int),
{
    room.is_solid(left, row) || room.is_solid(right, row)
}

/// A sideways move is stopped exactly when one of the three cells ahead (head,
/// middle, feet) is solid, and it hurts exactly when one of them holds spikes.
pub proof fn lemma_wall_reads_every_cell(m: RoomModel, column: int, top: int, middle: int, bottom: int)
    ensures
        wall_solid(m, column, top, middle, bottom) == (m.is_solid(column, top) || m.is_solid(
            column,
            middle,
        ) || m.is_solid(column, bottom)),
        wall_spikes(m, column, top, middle, bottom) == (m.tile_at(column, top) == Some(Tile::Spikes)
            || m.tile_at(column, middle) == Some(Tile::Spikes) || m.tile_at(column, bottom) == Some(
            Tile::Spikes,
        )),
{
}

/// A fall or a rise is stopped when either column meets a solid cell, and the
/// two columns play the same part.
pub proof fn lemma_floor_reads_both_columns(m: RoomModel, left: int, right: int, row: int)
    ensures
        m.is_solid(left, row) ==> floor_solid(m, left, right, row),
        m.is_solid(right, row) ==> floor_solid(m, left, right, row),
        !m.is_solid(left, row) && !m.is_solid(right, row) ==> !floor_solid(m, left, right, row),
        floor_solid(m, left, right, row) == floor_solid(m, right, left, row),
{
}

} // verus!
