//! Colours: an RGBA value type, the named colours, and conversion from
//! hue, saturation and brightness.

use vstd::prelude::*;

verus! {

/// A colour in RGBA32 format: red, green, blue and alpha each range from 0 to 255.
///
/// Two colours are equal exactly when all four channels are.
#[derive(Clone, Copy, Debug, PartialEq, Eq, Structural)]
pub struct Color {
    pub r: u8,
    pub g: u8,
    pub b: u8,
    pub a: u8,
}

/// Saturation and brightness are given in percent; larger values count as this one.
pub const HSB_FULL: u32 = 100;

/// How far a channel is pulled from full brightness towards the unsaturated
/// floor, in sixtieths, for the red channel at `hue` degrees (`0 <= hue < 360`).
///
/// The colour wheel has six sectors of sixty degrees. Red is at full brightness
/// in the first and the last, falls through the second, stays at the floor in
/// the third and fourth, and rises through the fifth.
pub open spec fn hsb_fade(hue: int) -> int {
    let sector = hue / 60;
    let within = hue % 60;
    if sector == 0 || sector == 5 {
        0
    } else if sector == 1 {
        within
    } else if sector == 4 {
        60 - within
    } else {
        60
    }
}

/// The level of a channel: `255 * b * (1 - s * f)` rounded down, for brightness
/// `b = brightness / 100`, saturation `s = saturation / 100` and `f = fade / 60`.
pub open spec fn hsb_level(brightness: int, saturation: int, fade: int) -> int {
    255 * brightness * (6000 - saturation * fade) / 600000
}

/// `value`, or `HSB_FULL` if `value` is larger.
pub open spec fn hsb_clamp(value: u32) -> int {
    if value > HSB_FULL {
        HSB_FULL as int
    } else {
        value as int
    }
}

impl Color {
    /// The colour with the given channels.
    pub open spec fn spec_rgba(red: u8, green: u8, blue: u8, alpha: u8) -> Color {
        Color { r: red, g: green, b: blue, a: alpha }
    }

    /// The opaque colour with the given channels.
    pub open spec fn spec_rgb(red: u8, green: u8, blue: u8) -> Color {
        Color { r: red, g: green, b: blue, a: 255 }
    }

    /// This colour with its alpha replaced.
    pub open spec fn spec_with_alpha(self, alpha: u8) -> Color {
        Color { r: self.r, g: self.g, b: self.b, a: alpha }
    }

    /// The opaque colour of the given hue (degrees, taken modulo 360), saturation
    /// and brightness (percent, clamped to 100). Green and blue follow red's
    /// course one third and two thirds of the wheel later.
    pub open spec fn spec_from_hsb(hue: u32, saturation: u32, brightness: u32) -> Color {
        let h = hue as int % 360;
        let s = hsb_clamp(saturation);
        let b = hsb_clamp(brightness);
        Color {
            r: hsb_level(b, s, hsb_fade(h)) as u8,
            g: hsb_level(b, s, hsb_fade((h + 240) % 360)) as u8,
            b: hsb_level(b, s, hsb_fade((h + 120) % 360)) as u8,
            a: 255,
        }
    }

    /// Create a colour from `red`, `green` and `blue`, fully opaque.
    #[verifier::when_used_as_spec(spec_rgb)]
    pub fn rgb(red: u8, green: u8, blue: u8) -> (c: Color)
        ensures
            c == Color::spec_rgb(red, green, blue),
    {
        Color { r: red, g: green, b: blue, a: 255 }
    }

    /// Create a colour from `red`, `green`, `blue` and `alpha`.
    #[verifier::when_used_as_spec(spec_rgba)]
    pub fn rgba(red: u8, green: u8, blue: u8, alpha: u8) -> (c: Color)
        ensures
            c == Color::spec_rgba(red, green, blue, alpha),
    {
        Color { r: red, g: green, b: blue, a: alpha }
    }

    /// Create a colour from an existing colour with alpha set to `alpha`.
    #[verifier::when_used_as_spec(spec_with_alpha)]
    pub fn with_alpha(self, alpha: u8) -> (c: Color)
        ensures
            c == self.spec_with_alpha(alpha),
    {
        Color::rgba(self.red(), self.green(), self.blue(), alpha)
    }

    /// Create a colour from hue, saturation and brightness.
    ///
    /// `hue` is in degrees and wraps around at 360. `saturation` and
    /// `brightness` are in percent; values above 100 are taken as 100.
    /// The result is opaque.
    #[verifier::when_used_as_spec(spec_from_hsb)]
    pub fn from_hsb(hue: u32, saturation: u32, brightness: u32) -> (c: Color)
        ensures
            c == Color::spec_from_hsb(hue, saturation, brightness),
    {
        let h: u32 = hue % 360;
        let s: u32 = if saturation > HSB_FULL { HSB_FULL } else { saturation };
        let b: u32 = if brightness > HSB_FULL { HSB_FULL } else { brightness };
        proof {
            lemma_wave_is_fade(h as int);
        }
        Color::rgb(
            channel(b, s, wave((h + 300) % 360)),
            channel(b, s, wave((h + 180) % 360)),
            channel(b, s, wave((h + 60) % 360)),
        )
    }

    /// The red component of the colour.
    pub fn red(&self) -> (v: u8)
        ensures
            v == self.r,
    {
        self.r
    }

    /// The green component of the colour.
    pub fn green(&self) -> (v: u8)
        ensures
            v == self.g,
    {
        self.g
    }

    /// The blue component of the colour.
    pub fn blue(&self) -> (v: u8)
        ensures
            v == self.b,
    {
        self.b
    }

    /// The alpha component of the colour.
    pub fn alpha(&self) -> (v: u8)
        ensures
            v == self.a,
    {
        self.a
    }
}

/// The named colours. Each is a function of no arguments, usable in contracts too.
#[allow(non_snake_case)]
impl Color {
    /// Fully transparent black.
    pub open spec fn spec_transparent() -> Color {
        Color::spec_rgba(0x00, 0x00, 0x00, 0)
    }

    /// Black.
    pub open spec fn spec_black() -> Color {
        Color::spec_rgb(0x00, 0x00, 0x00)
    }

    /// White.
    pub open spec fn spec_white() -> Color {
        Color::spec_rgb(0xFF, 0xFF, 0xFF)
    }

    /// Medium gray.
    pub open spec fn spec_gray() -> Color {
        Color::spec_rgb(0x80, 0x80, 0x80)
    }

    /// Dark gray.
    pub open spec fn spec_dark_gray() -> Color {
        Color::spec_rgb(0x40, 0x40, 0x40)
    }

    /// Light gray.
    pub open spec fn spec_light_gray() -> Color {
        Color::spec_rgb(0xC0, 0xC0, 0xC0)
    }

    /// Pure red.
    pub open spec fn spec_red() -> Color {
        Color::spec_rgb(0xFF, 0x00, 0x00)
    }

    /// The library's green: full green with three quarters of blue.
    pub open spec fn spec_green() -> Color {
        Color::spec_rgb(0x00, 0xFF, 0xC0)
    }

    /// Pure blue.
    pub open spec fn spec_blue() -> Color {
        Color::spec_rgb(0x00, 0x00, 0xFF)
    }

    /// Fully transparent black.
    #[verifier::when_used_as_spec(spec_transparent)]
    pub fn TRANSPARENT() -> (c: Color)
        ensures
            c == Color::spec_transparent(),
    {
        Color::rgba(0x00, 0x00, 0x00, 0)
    }

    /// Black.
    #[verifier::when_used_as_spec(spec_black)]
    pub fn BLACK() -> (c: Color)
        ensures
            c == Color::spec_black(),
    {
        Color::rgb(0x00, 0x00, 0x00)
    }

    /// White.
    #[verifier::when_used_as_spec(spec_white)]
    pub fn WHITE() -> (c: Color)
        ensures
            c == Color::spec_white(),
    {
        Color::rgb(0xFF, 0xFF, 0xFF)
    }

    /// Medium gray.
    #[verifier::when_used_as_spec(spec_gray)]
    pub fn GRAY() -> (c: Color)
        ensures
            c == Color::spec_gray(),
    {
        Color::rgb(0x80, 0x80, 0x80)
    }

    /// Dark gray.
    #[verifier::when_used_as_spec(spec_dark_gray)]
    pub fn DARK_GRAY() -> (c: Color)
        ensures
            c == Color::spec_dark_gray(),
    {
        Color::rgb(0x40, 0x40, 0x40)
    }

    /// Light gray.
    #[verifier::when_used_as_spec(spec_light_gray)]
    pub fn LIGHT_GRAY() -> (c: Color)
        ensures
            c == Color::spec_light_gray(),
    {
        Color::rgb(0xC0, 0xC0, 0xC0)
    }

    /// Pure red.
    #[verifier::when_used_as_spec(spec_red)]
    pub fn RED() -> (c: Color)
        ensures
            c == Color::spec_red(),
    {
        Color::rgb(0xFF, 0x00, 0x00)
    }

    /// The library's green: full green with three quarters of blue.
    #[verifier::when_used_as_spec(spec_green)]
    pub fn GREEN() -> (c: Color)
        ensures
            c == Color::spec_green(),
    {
        Color::rgb(0x00, 0xFF, 0xC0)
    }

    /// Pure blue.
    #[verifier::when_used_as_spec(spec_blue)]
    pub fn BLUE() -> (c: Color)
        ensures
            c == Color::spec_blue(),
    {
        Color::rgb(0x00, 0x00, 0xFF)
    }
}

impl From<(u8, u8, u8)> for Color {
    /// The opaque colour with channels `(red, green, blue)`.
    fn from(rgb: (u8, u8, u8)) -> (c: Color) {
        Color::rgb(rgb.0, rgb.1, rgb.2)
    }
}

impl vstd::std_specs::convert::FromSpecImpl<(u8, u8, u8)> for Color {
    open spec fn obeys_from_spec() -> bool {
        true
    }

    open spec fn from_spec(rgb: (u8, u8, u8)) -> Color {
        Color::spec_rgb(rgb.0, rgb.1, rgb.2)
    }
}

impl From<(u8, u8, u8, u8)> for Color {
    /// The colour with channels `(red, green, blue, alpha)`.
    fn from(rgba: (u8, u8, u8, u8)) -> (c: Color) {
        Color::rgba(rgba.0, rgba.1, rgba.2, rgba.3)
    }
}

impl vstd::std_specs::convert::FromSpecImpl<(u8, u8, u8, u8)> for Color {
    open spec fn obeys_from_spec() -> bool {
        true
    }

    open spec fn from_spec(rgba: (u8, u8, u8, u8)) -> Color {
        Color::spec_rgba(rgba.0, rgba.1, rgba.2, rgba.3)
    }
}

/// The four colours of a pen: for filling shapes, for their outlines, for
/// lines and for text.
#[derive(Clone, Copy, Debug, PartialEq, Eq, Structural)]
pub struct ColorState {
    pub fill_color: Color,
    pub outline_color: Color,
    pub line_color: Color,
    pub font_color: Color,
}

impl ColorState {
    /// Black fill, lines and text; no outline.
    pub open spec fn spec_default() -> ColorState {
        ColorState {
            fill_color: Color::BLACK(),
            outline_color: Color::TRANSPARENT(),
            line_color: Color::BLACK(),
            font_color: Color::BLACK(),
        }
    }
}

impl Default for ColorState {
    fn default() -> (state: ColorState)
        ensures
            state == ColorState::spec_default(),
    {
        ColorState {
            fill_color: Color::BLACK(),
            outline_color: Color::TRANSPARENT(),
            line_color: Color::BLACK(),
            font_color: Color::BLACK(),
        }
    }
}

/// The triangle wave `max(0, min(t, 240 - t, 60))` on `0 <= t < 360`: it rises
/// over the first sixty degrees, holds, falls from 180 to 240 and is zero after.
pub open spec fn spec_wave(t: int) -> int {
    let rising = if t < 240 - t { t } else { 240 - t };
    if rising < 0 {
        0
    } else if rising > 60 {
        60
    } else {
        rising
    }
}

fn wave(t: u32) -> (w: u32)
    requires
        t < 360,
    ensures
        w == spec_wave(t as int),
        w <= 60,
{
    if t >= 240 {
        0
    } else if t <= 60 {
        t
    } else if t >= 180 {
        240 - t
    } else {
        60
    }
}

fn channel(brightness: u32, saturation: u32, fade: u32) -> (v: u8)
    requires
        brightness <= 100,
        saturation <= 100,
        fade <= 60,
    ensures
        v == hsb_level(brightness as int, saturation as int, fade as int),
{
    assert(saturation * fade <= 6000) by (nonlinear_arith)
        requires
            saturation <= 100,
            fade <= 60,
    ;
    let rest: u32 = 6000 - saturation * fade;
    assert(brightness * rest <= 600000) by (nonlinear_arith)
        requires
            brightness <= 100,
            rest <= 6000,
    ;
    let scaled: u32 = 255 * (brightness * rest);
    assert(255 * brightness * (6000 - saturation * fade) == scaled) by (nonlinear_arith)
        requires
            scaled == 255 * (brightness * rest),
            rest == 6000 - saturation * fade,
    ;
    (scaled / 600000) as u8
}

/// The triangle wave, started a sixth of the wheel before a channel's own
/// sector, is that channel's fade.
proof fn lemma_wave_is_fade(h: int)
    requires
        0 <= h < 360,
    ensures
        spec_wave((h + 300) % 360) == hsb_fade(h),
        spec_wave((h + 180) % 360) == hsb_fade((h + 240) % 360),
        spec_wave((h + 60) % 360) == hsb_fade((h + 120) % 360),
{
}

} // verus!
