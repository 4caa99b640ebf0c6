//! The palette and the corner radii of the interface.

use vstd::prelude::*;

verus! {

/// A colour by its red, green and blue parts.
#[derive(Debug, Clone, Copy, PartialEq, Eq, Structural)]
pub struct Rgb {
    pub r: u8,
    pub g: u8,
    pub b: u8,
}

/// Outer window frame.
pub const RADIUS_WINDOW: u8 = 14;

pub const RADIUS_CARD: u8 = 13;

/// Icon tiles and the larger tinted tiles.
pub const RADIUS_TILE: u8 = 12;

pub const RADIUS_CONTROL: u8 = 10;

/// Fully rounded pills and toggle tracks.
pub const RADIUS_PILL: u8 = 255;

/// Window background.
pub open spec fn bg_rgb() -> Rgb {
    Rgb { r: 16, g: 23, b: 32 }
}

/// Window background.
pub fn arc_bg() -> (c: Rgb)
    ensures
        c == bg_rgb(),
{
    Rgb { r: 16, g: 23, b: 32 }
}

/// Title bar and footer.
pub open spec fn titlebar_rgb() -> Rgb {
    Rgb { r: 13, g: 20, b: 28 }
}

/// Title bar and footer.
pub fn arc_titlebar() -> (c: Rgb)
    ensures
        c == titlebar_rgb(),
{
    Rgb { r: 13, g: 20, b: 28 }
}

/// Cards and tiles.
pub open spec fn card_rgb() -> Rgb {
    Rgb { r: 27, g: 35, b: 45 }
}

/// Cards and tiles.
pub fn arc_card() -> (c: Rgb)
    ensures
        c == card_rgb(),
{
    Rgb { r: 27, g: 35, b: 45 }
}

/// Inputs.
pub open spec fn input_rgb() -> Rgb {
    Rgb { r: 24, g: 31, b: 40 }
}

/// Inputs.
pub fn arc_input() -> (c: Rgb)
    ensures
        c == input_rgb(),
{
    Rgb { r: 24, g: 31, b: 40 }
}

/// Faint surface under the pointer.
pub open spec fn muted_rgb() -> Rgb {
    Rgb { r: 37, g: 44, b: 54 }
}

/// Faint surface under the pointer.
pub fn arc_muted() -> (c: Rgb)
    ensures
        c == muted_rgb(),
{
    Rgb { r: 37, g: 44, b: 54 }
}

/// Card borders.
pub open spec fn border_rgb() -> Rgb {
    Rgb { r: 44, g: 52, b: 63 }
}

/// Card borders.
pub fn arc_border() -> (c: Rgb)
    ensures
        c == border_rgb(),
{
    Rgb { r: 44, g: 52, b: 63 }
}

/// Hairlines and dividers.
pub open spec fn border_soft_rgb() -> Rgb {
    Rgb { r: 37, g: 44, b: 54 }
}

/// Hairlines and dividers.
pub fn arc_border_soft() -> (c: Rgb)
    ensures
        c == border_soft_rgb(),
{
    Rgb { r: 37, g: 44, b: 54 }
}

/// Control borders and pending nodes.
pub open spec fn border_strong_rgb() -> Rgb {
    Rgb { r: 59, g: 68, b: 80 }
}

/// Control borders and pending nodes.
pub fn arc_border_strong() -> (c: Rgb)
    ensures
        c == border_strong_rgb(),
{
    Rgb { r: 59, g: 68, b: 80 }
}

/// Primary text.
pub open spec fn foreground_rgb() -> Rgb {
    Rgb { r: 238, g: 241, b: 245 }
}

/// Primary text.
pub fn arc_foreground() -> (c: Rgb)
    ensures
        c == foreground_rgb(),
{
    Rgb { r: 238, g: 241, b: 245 }
}

/// Body text.
pub open spec fn muted_text_rgb() -> Rgb {
    Rgb { r: 154, g: 163, b: 176 }
}

/// Body text.
pub fn arc_muted_text() -> (c: Rgb)
    ensures
        c == muted_text_rgb(),
{
    Rgb { r: 154, g: 163, b: 176 }
}

/// Captions and sub-labels.
pub open spec fn fg_dim_rgb() -> Rgb {
    Rgb { r: 114, g: 123, b: 137 }
}

/// Captions and sub-labels.
pub fn arc_fg_dim() -> (c: Rgb)
    ensures
        c == fg_dim_rgb(),
{
    Rgb { r: 114, g: 123, b: 137 }
}

/// Brand gold.
pub open spec fn primary_rgb() -> Rgb {
    Rgb { r: 251, g: 200, b: 44 }
}

/// Brand gold.
pub fn arc_primary() -> (c: Rgb)
    ensures
        c == primary_rgb(),
{
    Rgb { r: 251, g: 200, b: 44 }
}

/// Text on the gold.
pub open spec fn primary_foreground_rgb() -> Rgb {
    Rgb { r: 21, g: 32, b: 43 }
}

/// Text on the gold.
pub fn arc_primary_foreground() -> (c: Rgb)
    ensures
        c == primary_foreground_rgb(),
{
    Rgb { r: 21, g: 32, b: 43 }
}

/// Synced.
pub open spec fn success_rgb() -> Rgb {
    Rgb { r: 95, g: 216, b: 163 }
}

/// Synced.
pub fn arc_success() -> (c: Rgb)
    ensures
        c == success_rgb(),
{
    Rgb { r: 95, g: 216, b: 163 }
}

/// Attention.
pub open spec fn warning_rgb() -> Rgb {
    Rgb { r: 249, g: 177, b: 102 }
}

/// Attention.
pub fn arc_warning() -> (c: Rgb)
    ensures
        c == warning_rgb(),
{
    Rgb { r: 249, g: 177, b: 102 }
}

/// Close button under the pointer.
pub open spec fn danger_rgb() -> Rgb {
    Rgb { r: 232, g: 86, b: 86 }
}

/// Close button under the pointer.
pub fn arc_danger() -> (c: Rgb)
    ensures
        c == danger_rgb(),
{
    Rgb { r: 232, g: 86, b: 86 }
}

/// Glyph of the close button under the pointer.
pub open spec fn white_rgb() -> Rgb {
    Rgb { r: 255, g: 255, b: 255 }
}

/// Glyph of the close button under the pointer.
pub fn arc_white() -> (c: Rgb)
    ensures
        c == white_rgb(),
{
    Rgb { r: 255, g: 255, b: 255 }
}

/// The radius of the window's corners: a maximized window has none.
pub fn window_radius(maximized: bool) -> (r: u8)
    ensures
        r == (if maximized {
            0
        } else {
            RADIUS_WINDOW
        }),
{
    if maximized {
        0
    } else {
        RADIUS_WINDOW
    }
}

} // verus!
