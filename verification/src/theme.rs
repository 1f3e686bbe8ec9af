use vstd::prelude::*;

verus! {

/// A colour as 8-bit red, green, blue and alpha channels.
#[derive(Clone, Copy, Debug, PartialEq, Eq, Structural)]
pub struct Rgba {
    pub r: u8,
    pub g: u8,
    pub b: u8,
    pub a: u8,
}

pub open spec fn rgba(r: u8, g: u8, b: u8, a: u8) -> Rgba {
    Rgba { r, g, b, a }
}

/// The colours of the interface.
#[derive(Clone, Copy, Debug, PartialEq, Eq, Structural)]
pub struct UiPalette {
    pub panel_bg: Rgba,
    pub panel_border: Rgba,
    pub text_primary: Rgba,
    pub text_secondary: Rgba,
    pub text_muted: Rgba,
    pub accent_ok: Rgba,
    pub accent_warn: Rgba,
    pub focus_ring: Rgba,
}

pub open spec fn standard_palette() -> UiPalette {
    UiPalette {
        panel_bg: rgba(10, 12, 24, 245),
        panel_border: rgba(130, 150, 220, 255),
        text_primary: rgba(255, 255, 255, 255),
        text_secondary: rgba(200, 210, 240, 255),
        text_muted: rgba(160, 170, 200, 255),
        accent_ok: rgba(140, 220, 180, 255),
        accent_warn: rgba(255, 210, 160, 255),
        focus_ring: rgba(255, 240, 120, 255),
    }
}

/// Brighter borders and text, for players with low vision.
pub open spec fn high_contrast_palette() -> UiPalette {
    UiPalette {
        panel_bg: rgba(0, 0, 0, 250),
        panel_border: rgba(255, 255, 100, 255),
        text_primary: rgba(255, 255, 255, 255),
        text_secondary: rgba(255, 255, 220, 255),
        text_muted: rgba(220, 220, 220, 255),
        accent_ok: rgba(120, 255, 180, 255),
        accent_warn: rgba(255, 180, 80, 255),
        focus_ring: rgba(255, 255, 0, 255),
    }
}

impl UiPalette {
    pub fn standard() -> (p: Self)
        ensures
            p == standard_palette(),
    {
        UiPalette {
            panel_bg: Rgba { r: 10, g: 12, b: 24, a: 245 },
            panel_border: Rgba { r: 130, g: 150, b: 220, a: 255 },
            text_primary: Rgba { r: 255, g: 255, b: 255, a: 255 },
            text_secondary: Rgba { r: 200, g: 210, b: 240, a: 255 },
            text_muted: Rgba { r: 160, g: 170, b: 200, a: 255 },
            accent_ok: Rgba { r: 140, g: 220, b: 180, a: 255 },
            accent_warn: Rgba { r: 255, g: 210, b: 160, a: 255 },
            focus_ring: Rgba { r: 255, g: 240, b: 120, a: 255 },
        }
    }

    pub fn high_contrast() -> (p: Self)
        ensures
            p == high_contrast_palette(),
    {
        UiPalette {
            panel_bg: Rgba { r: 0, g: 0, b: 0, a: 250 },
            panel_border: Rgba { r: 255, g: 255, b: 100, a: 255 },
            text_primary: Rgba { r: 255, g: 255, b: 255, a: 255 },
            text_secondary: Rgba { r: 255, g: 255, b: 220, a: 255 },
            text_muted: Rgba { r: 220, g: 220, b: 220, a: 255 },
            accent_ok: Rgba { r: 120, g: 255, b: 180, a: 255 },
            accent_warn: Rgba { r: 255, g: 180, b: 80, a: 255 },
            focus_ring: Rgba { r: 255, g: 255, b: 0, a: 255 },
        }
    }
}

/// Accessibility preferences.
#[derive(Clone, Copy, Debug, PartialEq, Eq, Structural)]
pub struct UiPreferences {
    pub high_contrast: bool,
    /// Skip pulsing and spinning animations.
    pub reduced_motion: bool,
}

impl Default for UiPreferences {
    fn default() -> (p: Self)
        ensures
            p == (UiPreferences { high_contrast: false, reduced_motion: false }),
    {
        UiPreferences { high_contrast: false, reduced_motion: false }
    }
}

impl UiPreferences {
    pub fn palette(&self) -> (p: UiPalette)
        ensures
            p == (if self.high_contrast {
                high_contrast_palette()
            } else {
                standard_palette()
            }),
    {
        if self.high_contrast {
            UiPalette::high_contrast()
        } else {
            UiPalette::standard()
        }
    }
}

/// Side of the stand-in sprite drawn when the player's texture is missing.
pub const FALLBACK_SIZE: u32 = 64;

pub open spec fn abs_diff(a: int, b: int) -> int {
    if a >= b {
        a - b
    } else {
        b - a
    }
}

/// The stand-in sprite: a red diamond with a light rim, centred in a
/// transparent 64 by 64 square.
pub open spec fn fallback_pixel_spec(x: int, y: int) -> Rgba {
    let d = abs_diff(x, 32) + abs_diff(y, 32);
    if d <= 18 {
        if d >= 15 {
            rgba(255, 130, 130, 255)
        } else {
            rgba(255, 0, 0, 255)
        }
    } else {
        rgba(0, 0, 0, 0)
    }
}

pub fn fallback_pixel(x: u32, y: u32) -> (c: Rgba)
    requires
        x < FALLBACK_SIZE,
        y < FALLBACK_SIZE,
    ensures
        c == fallback_pixel_spec(x as int, y as int),
{
    let dx = if x >= 32 {
        x - 32
    } else {
        32 - x
    };
    let dy = if y >= 32 {
        y - 32
    } else {
        32 - y
    };
    let d = dx + dy;
    if d <= 18 {
        if d >= 15 {
            Rgba { r: 255, g: 130, b: 130, a: 255 }
        } else {
            Rgba { r: 255, g: 0, b: 0, a: 255 }
        }
    } else {
        Rgba { r: 0, g: 0, b: 0, a: 0 }
    }
}

/// The stand-in sprite's pixels, row by row.
pub fn fallback_pixels() -> (px: Vec<Rgba>)
    ensures
        px.len() == FALLBACK_SIZE * FALLBACK_SIZE,
        forall|y: int, x: int|
            0 <= y < FALLBACK_SIZE && 0 <= x < FALLBACK_SIZE ==> #[trigger] px@[y * 64 + x]
                == fallback_pixel_spec(x, y),
{
    let mut px: Vec<Rgba> = Vec::new();
    let mut y: u32 = 0;
    while y < FALLBACK_SIZE
        invariant
            y <= FALLBACK_SIZE,
            px.len() == y * 64,
            forall|yy: int, x: int|
                0 <= yy < y && 0 <= x < FALLBACK_SIZE ==> #[trigger] px@[yy * 64 + x]
                    == fallback_pixel_spec(x, yy),
        decreases FALLBACK_SIZE - y,
    {
        let mut x: u32 = 0;
        while x < FALLBACK_SIZE
            invariant
                y < FALLBACK_SIZE,
                x <= FALLBACK_SIZE,
                px.len() == y * 64 + x,
                forall|yy: int, xx: int|
                    0 <= yy < y && 0 <= xx < FALLBACK_SIZE ==> #[trigger] px@[yy * 64 + xx]
                        == fallback_pixel_spec(xx, yy),
                forall|xx: int| 0 <= xx < x ==> #[trigger] px@[y * 64 + xx] == fallback_pixel_spec(xx, y as int),
            decreases FALLBACK_SIZE - x,
        {
            let c = fallback_pixel(x, y);
            px.push(c);
            x = x + 1;
        }
        proof {
            assert forall|yy: int, xx: int|
                0 <= yy < y + 1 && 0 <= xx < FALLBACK_SIZE implies #[trigger] px@[yy * 64 + xx]
                    == fallback_pixel_spec(xx, yy) by {
                if yy == y {
                    assert(px@[y * 64 + xx] == fallback_pixel_spec(xx, y as int));
                }
            }
        }
        y = y + 1;
    }
    px
}

} // verus!
