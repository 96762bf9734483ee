//! What the OLED shows: a label with the sound level and a bar whose height
//! follows it.

use vstd::arithmetic::div_mod::lemma_div_is_ordered;
use vstd::prelude::*;
use vstd::string::*;

use crate::text::{decimal, push_decimal};

verus! {

/// Height of the display in pixels.
pub const DISPLAY_HEIGHT: u32 = 64;

/// Left edge of the bar.
pub const BAR_X: i32 = 54;

/// Width of the bar.
pub const BAR_WIDTH: u32 = 20;

/// The level that fills the bar.
pub const FULL_SCALE: u32 = 4095;

/// The bar's height for a sound level: the level scaled to the display
/// height, at least 1 and at most the display height.
pub open spec fn bar_height_for(level: u16) -> u32 {
    let h = (level as nat * DISPLAY_HEIGHT as nat) / FULL_SCALE as nat;
    if h < 1 {
        1
    } else if h > DISPLAY_HEIGHT {
        DISPLAY_HEIGHT
    } else {
        h as u32
    }
}

/// Scales a sound level to the bar's height (see `bar_height_for`).
pub fn bar_height(level: u16) -> (h: u32)
    ensures
        h == bar_height_for(level),
{
    let scaled: u32 = (level as u32 * DISPLAY_HEIGHT) / FULL_SCALE;
    if scaled < 1 {
        1
    } else if scaled > DISPLAY_HEIGHT {
        DISPLAY_HEIGHT
    } else {
        scaled
    }
}

/// A rectangle: top-left corner and size in pixels.
#[derive(PartialEq, Eq, Structural, Clone, Copy, Debug)]
pub struct BarRect {
    pub x: i32,
    pub y: i32,
    pub width: u32,
    pub height: u32,
}

/// Where the bar stands for a sound level: bottom-aligned at `BAR_X`.
pub fn bar_rect(level: u16) -> (r: BarRect)
    ensures
        r.x == BAR_X,
        r.width == BAR_WIDTH,
        r.height == bar_height_for(level),
        r.y == DISPLAY_HEIGHT - bar_height_for(level),
{
    let h = bar_height(level);
    BarRect { x: BAR_X, y: (DISPLAY_HEIGHT - h) as i32, width: BAR_WIDTH, height: h }
}

/// The label shown above the bar.
pub open spec fn label_text(level: u16) -> Seq<char> {
    "MIC: "@ + decimal(level as nat)
}

/// Builds the label shown above the bar.
pub fn mic_label(level: u16) -> (r: String)
    ensures
        r@ == label_text(level),
{
    let mut s = String::from_str("MIC: ");
    push_decimal(&mut s, level as u64);
    s
}

/// The bar never leaves the display: its height is between 1 and the
/// display height.
pub proof fn bar_fits_display(level: u16)
    ensures
        1 <= bar_height_for(level) <= DISPLAY_HEIGHT,
{
}

/// A louder sound never gives a lower bar.
pub proof fn bar_height_monotone(a: u16, b: u16)
    requires
        a <= b,
    ensures
        bar_height_for(a) <= bar_height_for(b),
{
    assert(a as int * 64 <= b as int * 64) by (nonlinear_arith)
        requires
            a <= b,
    ;
    lemma_div_is_ordered(a as int * 64, b as int * 64, 4095);
}

} // verus!
