use vstd::prelude::*;

use crate::room::Door;

verus! {

#[derive(Clone, Copy, Debug, PartialEq, Eq, Structural)]
pub enum XDirection {
    Right,
    Left,
}

/// Where the player is looking vertically.
#[derive(Clone, Copy, Debug, PartialEq, Eq, Structural)]
pub enum YDirection {
    Level,
    Up,
    Down,
}

#[derive(Clone, Copy, Debug, PartialEq, Eq, Structural)]
pub enum AttackDirection {
    Right,
    Left,
    Up,
    Down,
}

/// Whether the player has walked through a door this frame.
#[derive(Debug)]
pub enum RoomChange {
    Stay,
    Change { door: Door },
}

/// A new attack goes where the player looks vertically, else where the player faces.
pub open spec fn spec_attack_direction(x: XDirection, y: YDirection) -> AttackDirection {
    match y {
        YDirection::Up => AttackDirection::Up,
        YDirection::Down => AttackDirection::Down,
        YDirection::Level => match x {
            XDirection::Right => AttackDirection::Right,
            XDirection::Left => AttackDirection::Left,
        },
    }
}

pub fn attack_direction_for(x: XDirection, y: YDirection) -> (d: AttackDirection)
    ensures
        d == spec_attack_direction(x, y),
{
    match y {
        YDirection::Up => AttackDirection::Up,
        YDirection::Down => AttackDirection::Down,
        YDirection::Level => match x {
            XDirection::Right => AttackDirection::Right,
            XDirection::Left => AttackDirection::Left,
        },
    }
}

/// The row of the walking sprite sheet to play: rows 0, 2 and 4 face left
/// (walking, rising, falling), rows 1, 3 and 5 face right. Standing still, or
/// moving sideways in the air at the top of a jump, keeps the current frame.
pub open spec fn spec_walking_animation_row(
    x: XDirection,
    walking: bool,
    on_ground: bool,
    rising: bool,
    falling: bool,
) -> Option<u32> {
    let base: u32 = match x {
        XDirection::Left => 0,
        XDirection::Right => 1,
    };
    if !walking {
        None
    } else if on_ground {
        Some(base)
    } else if rising {
        Some((base + 2) as u32)
    } else if falling {
        Some((base + 4) as u32)
    } else {
        None
    }
}

pub fn walking_animation_row(
    x: XDirection,
    walking: bool,
    on_ground: bool,
    rising: bool,
    falling: bool,
) -> (r: Option<u32>)
    ensures
        r == spec_walking_animation_row(x, walking, on_ground, rising, falling),
{
    let base: u32 = match x {
        XDirection::Left => 0,
        XDirection::Right => 1,
    };
    if !walking {
        None
    } else if on_ground {
        Some(base)
    } else if rising {
        Some(base + 2)
    } else if falling {
        Some(base + 4)
    } else {
        None
    }
}

} // verus!
