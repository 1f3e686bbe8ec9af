use vstd::prelude::*;

verus! {

/// A pointer position in tenths of a pixel.
#[derive(Clone, Copy, Debug, PartialEq, Eq, Structural)]
pub struct Pointer {
    pub x: i32,
    pub y: i32,
}

/// What the player did this frame.
pub struct FrameInput {
    /// Key codes pressed this frame.
    pub pressed: Vec<u16>,
    /// The key the windowing layer reports as last pressed this frame.
    pub last_key: Option<u16>,
    pub left_click: bool,
    pub right_click: bool,
    /// Where the pointer is, when it has moved recently enough to steer menus.
    pub pointer: Option<Pointer>,
}

pub struct InputView {
    pub pressed: Seq<u16>,
    pub last_key: Option<u16>,
    pub left_click: bool,
    pub right_click: bool,
    pub pointer: Option<Pointer>,
}

impl View for FrameInput {
    type V = InputView;

    open spec fn view(&self) -> InputView {
        InputView {
            pressed: self.pressed@,
            last_key: self.last_key,
            left_click: self.left_click,
            right_click: self.right_click,
            pointer: self.pointer,
        }
    }
}

pub open spec fn key_down(i: InputView, key: u16) -> bool {
    i.pressed.contains(key)
}

impl FrameInput {
    pub fn is_pressed(&self, key: u16) -> (b: bool)
        ensures
            b == key_down(self@, key),
    {
        let mut k: usize = 0;
        while k < self.pressed.len()
            invariant
                k <= self.pressed.len(),
                forall|j: int| 0 <= j < k ==> self.pressed@[j] != key,
            decreases self.pressed.len() - k,
        {
            if self.pressed[k] == key {
                assert(self.pressed@[k as int] == key);
                return true;
            }
            k = k + 1;
        }
        false
    }
}

/// Height of a menu row, in tenths of a pixel.
pub const ROW_HEIGHT: i32 = 380;

/// The row, of `n` rows stacked downwards from `top`, that `y` lies strictly
/// inside.
pub open spec fn row_at(y: int, top: int, n: int) -> Option<int> {
    let d = y - top;
    if 0 < d && d < ROW_HEIGHT * n && d % (ROW_HEIGHT as int) != 0 {
        Some(d / (ROW_HEIGHT as int))
    } else {
        None
    }
}

pub fn row_at_exec(y: i32, top: i32, n: i32) -> (r: Option<i32>)
    requires
        0 <= top <= 100_000,
        0 <= n <= 100,
    ensures
        r == (match row_at(y as int, top as int, n as int) {
            Some(k) => Some(k as i32),
            None => None::<i32>,
        }),
        r matches Some(k) ==> 0 <= k < n,
{
    let d = y as i64 - top as i64;
    if 0 < d && d < (ROW_HEIGHT as i64) * (n as i64) && d % (ROW_HEIGHT as i64) != 0 {
        let k = d / (ROW_HEIGHT as i64);
        assert(0 <= k < n) by (nonlinear_arith)
            requires
                0 < d < 380 * n,
                k == d / 380,
        ;
        Some(k as i32)
    } else {
        None
    }
}

/// Left edge of a volume slider, and where its level-1 cell begins.
pub const SLIDER_LEFT: i32 = 4880;

pub const SLIDER_FIRST_STEP: i32 = 5224;

pub const SLIDER_STEP: i32 = 488;

pub const SLIDER_RIGHT: i32 = 10020;

/// The volume level (0 to 10) of the slider cell that `x` lies strictly inside.
pub open spec fn volume_level_at(x: int) -> Option<usize> {
    let d = x - SLIDER_FIRST_STEP;
    if SLIDER_LEFT < x && x < SLIDER_FIRST_STEP {
        Some(0)
    } else if 0 < d && d < SLIDER_STEP * 9 && d % (SLIDER_STEP as int) != 0 {
        Some((d / (SLIDER_STEP as int) + 1) as usize)
    } else if SLIDER_FIRST_STEP + SLIDER_STEP * 9 < x && x < SLIDER_RIGHT {
        Some(10)
    } else {
        None
    }
}

pub fn volume_level_at_exec(x: i32) -> (r: Option<usize>)
    ensures
        r == volume_level_at(x as int),
        r matches Some(v) ==> v <= 10,
{
    let d = x as i64 - SLIDER_FIRST_STEP as i64;
    if SLIDER_LEFT < x && x < SLIDER_FIRST_STEP {
        Some(0)
    } else if 0 < d && d < (SLIDER_STEP as i64) * 9 && d % (SLIDER_STEP as i64) != 0 {
        let k = d / (SLIDER_STEP as i64);
        assert(0 <= k < 9) by (nonlinear_arith)
            requires
                0 < d < 488 * 9,
                k == d / 488,
        ;
        Some((k + 1) as usize)
    } else if (SLIDER_FIRST_STEP as i64) + (SLIDER_STEP as i64) * 9 < x as i64 && x < SLIDER_RIGHT {
        Some(10)
    } else {
        None
    }
}

} // verus!
