//! Driving an RGB LED matrix panel: colours, panel geometry, the render
//! engine's command protocol and state machine, media discovery rules and the
//! request-side validation that feeds the engine.
//!
//! Everything in this crate is plain computation with a machine-checked
//! contract. Reading files, talking to the hardware, sleeping and waiting for
//! commands is left to the program that embeds the crate.

use std::sync::atomic::{AtomicBool, Ordering};
use vstd::prelude::*;

pub mod media;
pub mod render;
pub mod server;

verus! {

// ── Panel configuration ────────────────────────────────────────────

/// Dimensions of the LED panel, in pixels.
#[derive(Clone, Copy, Debug, PartialEq, Eq, Structural)]
pub struct PanelConfig {
    pub rows: u32,
    pub cols: u32,
}

impl PanelConfig {
    /// Number of pixels on the panel, as a mathematical integer.
    pub open spec fn pixels(self) -> int {
        self.rows * self.cols
    }

    /// Number of bytes in a raw RGB24 frame for this panel: three per pixel,
    /// row-major, no padding.
    pub open spec fn frame_bytes(self) -> int {
        self.rows * self.cols * 3
    }

    /// A panel the render engine can drive: both dimensions are positive and
    /// the size of a raw frame is a 32-bit quantity.
    pub open spec fn well_formed(self) -> bool {
        &&& self.rows > 0
        &&& self.cols > 0
        &&& self.frame_bytes() <= u32::MAX
    }

    /// A panel of `rows` by `cols` pixels.
    pub fn new(rows: u32, cols: u32) -> (panel: PanelConfig)
        ensures
            panel.rows == rows,
            panel.cols == cols,
    {
        PanelConfig { rows, cols }
    }

    /// Total number of pixels on the panel.
    pub fn pixel_count(&self) -> (n: u32)
        requires
            self.pixels() <= u32::MAX,
        ensures
            n == self.pixels(),
    {
        self.rows * self.cols
    }

    /// Number of bytes needed for a raw RGB frame (3 bytes per pixel).
    pub fn frame_byte_count(&self) -> (n: usize)
        requires
            self.frame_bytes() <= u32::MAX,
        ensures
            n == self.frame_bytes(),
    {
        let pixels: u64 = self.pixel_area();
        let bytes: u64 = pixels * 3;
        bytes as usize
    }

    /// On a panel the engine can drive, each dimension alone is small enough
    /// to be a pixel coordinate.
    pub proof fn dimensions_are_coordinates(self)
        requires
            self.well_formed(),
        ensures
            0 < self.rows <= 1_431_655_765,
            0 < self.cols <= 1_431_655_765,
            self.pixels() <= 1_431_655_765,
    {
        assert(self.rows * self.cols >= self.cols) by (nonlinear_arith)
            requires
                self.rows >= 1,
                self.cols >= 0,
        ;
        assert(self.rows * self.cols >= self.rows) by (nonlinear_arith)
            requires
                self.cols >= 1,
                self.rows >= 0,
        ;
    }

    /// Whether the panel is one the render engine can drive.
    pub fn is_well_formed(&self) -> (ok: bool)
        ensures
            ok == self.well_formed(),
    {
        // 3 * 1_431_655_765 is the largest 32-bit value.
        self.rows > 0 && self.cols > 0 && self.pixel_area() <= 1_431_655_765
    }

    /// `rows * cols` in 64 bits, where it cannot overflow.
    fn pixel_area(&self) -> (area: u64)
        ensures
            area == self.pixels(),
    {
        assert(self.rows * self.cols <= 0xffff_ffff * 0xffff_ffff) by (nonlinear_arith)
            requires
                self.rows <= 0xffff_ffff,
                self.cols <= 0xffff_ffff,
        ;
        (self.rows as u64) * (self.cols as u64)
    }
}

impl Default for PanelConfig {
    /// The 64×64 panel.
    fn default() -> (panel: PanelConfig)
        ensures
            panel.rows == 64,
            panel.cols == 64,
    {
        PanelConfig { rows: 64, cols: 64 }
    }
}

// ── Color ──────────────────────────────────────────────────────────

/// An RGB colour with 8 bits per channel.
#[derive(Clone, Copy, Debug, PartialEq, Eq, Structural)]
pub struct Color {
    pub r: u8,
    pub g: u8,
    pub b: u8,
}

/// One channel dimmed to `brightness` percent: unchanged from 100 percent
/// up, otherwise `channel * brightness / 100`, truncated.
pub open spec fn scale_channel(channel: u8, brightness: u8) -> u8 {
    if brightness >= 100 {
        channel
    } else {
        (channel * brightness / 100) as u8
    }
}

/// The channel that rises from 0 towards 255 across the 60 degrees of a hue
/// sector, at `step` degrees into the sector.
pub open spec fn rising_level(step: int) -> int {
    step * 255 / 60
}

/// Whether the falling channel at `step` sits one below the exact quotient.
///
/// The ramp is the single-precision evaluation of `(1 - step/60) * 255`,
/// truncated. At these steps the quotient is a whole number and the rounding
/// of `1 - step/60` lands just under it.
pub open spec fn falls_short(step: int) -> bool {
    step % 4 == 0 && (step == 20 || step >= 28)
}

/// The channel that falls from 255 towards 0 across a hue sector, at `step`
/// degrees into the sector.
pub open spec fn falling_level(step: int) -> int {
    let exact = (60 - step) * 255 / 60;
    if falls_short(step) {
        exact - 1
    } else {
        exact
    }
}

/// The fully saturated, full-value colour of a hue given in degrees.
///
/// The hue is taken modulo 360 and falls into one of six sectors of 60
/// degrees: red to yellow (green rises), yellow to green (red falls), green to
/// cyan (blue rises), cyan to blue (green falls), blue to magenta (red rises),
/// magenta to red (blue falls).
pub open spec fn hue_color(hue: int) -> Color {
    let h = hue % 360;
    let step = h % 60;
    let rising = rising_level(step) as u8;
    let falling = falling_level(step) as u8;
    let sector = h / 60;
    if sector == 0 {
        Color { r: 255, g: rising, b: 0 }
    } else if sector == 1 {
        Color { r: falling, g: 255, b: 0 }
    } else if sector == 2 {
        Color { r: 0, g: 255, b: rising }
    } else if sector == 3 {
        Color { r: 0, g: falling, b: 255 }
    } else if sector == 4 {
        Color { r: rising, g: 0, b: 255 }
    } else {
        Color { r: 255, g: 0, b: falling }
    }
}

impl Color {
    /// This colour dimmed to `brightness` percent, channel by channel.
    pub open spec fn dimmed(self, brightness: u8) -> Color {
        Color {
            r: scale_channel(self.r, brightness),
            g: scale_channel(self.g, brightness),
            b: scale_channel(self.b, brightness),
        }
    }

    /// The colour with these channels.
    pub fn new(r: u8, g: u8, b: u8) -> (c: Color)
        ensures
            c == (Color { r, g, b }),
    {
        Color { r, g, b }
    }

    /// Create a color from a hue value in degrees, with full saturation and
    /// brightness. Hues of 360 and above wrap around.
    pub fn from_hue(hue: u16) -> (c: Color)
        ensures
            c == hue_color(hue as int),
    {
        let h: u16 = hue % 360;
        let sector: u16 = h / 60;
        let step: u16 = h % 60;
        let rising: u8 = (step * 255 / 60) as u8;
        let exact: u16 = (60 - step) * 255 / 60;
        let falling: u8 = if step % 4 == 0 && (step == 20 || step >= 28) {
            (exact - 1) as u8
        } else {
            exact as u8
        };
        if sector == 0 {
            Color { r: 255, g: rising, b: 0 }
        } else if sector == 1 {
            Color { r: falling, g: 255, b: 0 }
        } else if sector == 2 {
            Color { r: 0, g: 255, b: rising }
        } else if sector == 3 {
            Color { r: 0, g: falling, b: 255 }
        } else if sector == 4 {
            Color { r: rising, g: 0, b: 255 }
        } else {
            Color { r: 255, g: 0, b: falling }
        }
    }

    /// Apply brightness scaling (0-100) to this color. A brightness of 100 or
    /// more leaves the colour as it is; 0 gives black.
    pub fn apply_brightness(self, brightness: u8) -> (c: Color)
        ensures
            c == self.dimmed(brightness),
            brightness >= 100 ==> c == self,
            brightness == 0 ==> c == (Color { r: 0, g: 0, b: 0 }),
    {
        Color {
            r: dim_channel(self.r, brightness),
            g: dim_channel(self.g, brightness),
            b: dim_channel(self.b, brightness),
        }
    }
}

/// Dim one channel to `brightness` percent, in 16-bit arithmetic.
pub fn dim_channel(channel: u8, brightness: u8) -> (out: u8)
    ensures
        out == scale_channel(channel, brightness),
        out <= channel,
{
    proof {
        scaling_never_brightens(channel, brightness);
    }
    if brightness >= 100 {
        channel
    } else {
        assert(channel * brightness <= 255 * 99) by (nonlinear_arith)
            requires
                channel <= 255,
                brightness <= 99,
        ;
        let wide: u16 = (channel as u16) * (brightness as u16);
        (wide / 100) as u8
    }
}

/// Hues are periodic: a hue and its remainder modulo 360 give the same colour,
/// and so do any two hues that differ by a multiple of 360.
pub proof fn hue_is_periodic(hue: int, turns: int)
    ensures
        hue_color(hue) == hue_color(hue % 360),
        hue_color(hue + 360 * turns) == hue_color(hue),
{
    assert((hue % 360) % 360 == hue % 360);
    assert((hue + 360 * turns) % 360 == hue % 360) by (nonlinear_arith);
}

/// From 100 percent up brightness is the identity: every such brightness
/// gives what 100 gives, which is the colour itself.
pub proof fn full_brightness_is_identity(c: Color, brightness: u8)
    requires
        brightness >= 100,
    ensures
        c.dimmed(100) == c,
        c.dimmed(brightness) == c.dimmed(100),
{
}

/// A brightness of 0 turns every colour black.
pub proof fn zero_brightness_is_black(c: Color)
    ensures
        c.dimmed(0) == (Color { r: 0, g: 0, b: 0 }),
{
}

/// Dimming never brightens: each channel of the result is at most what it was.
pub proof fn dimming_never_brightens(c: Color, brightness: u8)
    ensures
        c.dimmed(brightness).r <= c.r,
        c.dimmed(brightness).g <= c.g,
        c.dimmed(brightness).b <= c.b,
{
    scaling_never_brightens(c.r, brightness);
    scaling_never_brightens(c.g, brightness);
    scaling_never_brightens(c.b, brightness);
}

/// A dimmed channel is at most the channel itself.
pub proof fn scaling_never_brightens(channel: u8, brightness: u8)
    ensures
        scale_channel(channel, brightness) <= channel,
{
    if brightness < 100 {
        assert(channel * brightness / 100 <= channel) by (nonlinear_arith)
            requires
                0 <= channel,
                0 <= brightness < 100,
        ;
        assert(0 <= channel * brightness / 100) by (nonlinear_arith)
            requires
                0 <= channel,
                0 <= brightness,
        ;
    }
}

// ── Backward-compatible color helpers ──────────────────────────────

/// Create a Color from RGB values.
pub fn color(r: u8, g: u8, b: u8) -> (c: Color)
    ensures
        c == (Color { r, g, b }),
{
    Color::new(r, g, b)
}

/// Create a color from a hue value in degrees, with full saturation and
/// brightness.
pub fn color_from_hue(hue: u16) -> (c: Color)
    ensures
        c == hue_color(hue as int),
{
    Color::from_hue(hue)
}

// ── Shutdown flag ──────────────────────────────────────────────────

/// Check if the main loop should keep running.
///
/// The flag is shared with whoever requests the shutdown, so nothing can be
/// said of the value read beyond its type.
pub fn is_running(running: &AtomicBool) -> bool {
    running.load(Ordering::SeqCst)
}

} // verus!
