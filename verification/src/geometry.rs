//! Per-frame bar geometry.
//!
//! Geometry is stateless: recomputed every frame purely from the current
//! amplitude pair and the current screen size, never persisted. Positions
//! and sizes are in thousandths of a pixel, which keeps the half and
//! three-quarters of the screen dimensions exact for every whole-pixel
//! screen size. Amplitudes are clipped to the drawable column here, so a
//! published amplitude larger than the column never yields a negative
//! origin or an oversized bar.

use vstd::prelude::*;

verus! {

/// Width of each bar, in thousandths of a pixel (200 pixels).
pub const BAR_WIDTH_MILLI: i64 = 200000;

/// Top edge of a full-height bar, in thousandths of a pixel (50 pixels).
pub const BAR_TOP_Y_MILLI: i64 = 50000;

/// Gap between the two bars, in thousandths of a pixel (40 pixels).
pub const BAR_GAP_MILLI: i64 = 40000;

/// x where the right bar starts: half the screen width plus 20 pixels.
pub open spec fn right_bar_start_x_milli(screen_w_px: u32) -> int {
    (screen_w_px as int) * 500 + 20000
}

/// x where the left bar starts: one gap and one bar width left of the
/// right bar.
pub open spec fn left_bar_start_x_milli(screen_w_px: u32) -> int {
    right_bar_start_x_milli(screen_w_px) - (BAR_GAP_MILLI as int) - (BAR_WIDTH_MILLI as int)
}

/// Tallest drawable bar: three quarters of the screen height.
pub open spec fn max_bar_height_milli(screen_h_px: u32) -> int {
    (screen_h_px as int) * 750
}

/// An amplitude clipped to the drawable column.
pub open spec fn clipped_amp(amp_milli: u64, screen_h_px: u32) -> int {
    if amp_milli > max_bar_height_milli(screen_h_px) {
        max_bar_height_milli(screen_h_px)
    } else {
        amp_milli as int
    }
}

/// y where a bar of the given amplitude starts: the bar hangs from a fixed
/// bottom edge and grows upward with amplitude.
pub open spec fn bar_y_milli(screen_h_px: u32, amp_milli: u64) -> int {
    (BAR_TOP_Y_MILLI as int) + max_bar_height_milli(screen_h_px) - clipped_amp(
        amp_milli,
        screen_h_px,
    )
}

/// Height of a bar of the given amplitude: the clipped amplitude itself.
pub open spec fn bar_height_milli(screen_h_px: u32, amp_milli: u64) -> int {
    clipped_amp(amp_milli, screen_h_px)
}

/// Everything the render context draws in one frame, in thousandths of a
/// pixel: one filled rectangle per channel, both of the same width.
#[derive(Clone, Copy, PartialEq, Eq, Structural, Debug)]
pub struct BarGeometry {
    pub left_bar_start_x_milli: i64,
    pub right_bar_start_x_milli: i64,
    pub bar_width_milli: i64,
    pub max_bar_height_milli: i64,
    pub left_bar_y_milli: i64,
    pub right_bar_y_milli: i64,
    pub left_bar_height_milli: i64,
    pub right_bar_height_milli: i64,
}

/// Derive the frame's geometry from the screen size and the amplitude pair
/// read from the shared state. Every field is pinned to its formula; both
/// amplitudes are clipped to the drawable column.
pub fn derive_geometry(screen_w_px: u32, screen_h_px: u32, left_amp_milli: u64, right_amp_milli: u64) -> (g:
    BarGeometry)
    ensures
        g.left_bar_start_x_milli == left_bar_start_x_milli(screen_w_px),
        g.right_bar_start_x_milli == right_bar_start_x_milli(screen_w_px),
        g.bar_width_milli == BAR_WIDTH_MILLI,
        g.max_bar_height_milli == max_bar_height_milli(screen_h_px),
        g.left_bar_y_milli == bar_y_milli(screen_h_px, left_amp_milli),
        g.right_bar_y_milli == bar_y_milli(screen_h_px, right_amp_milli),
        g.left_bar_height_milli == bar_height_milli(screen_h_px, left_amp_milli),
        g.right_bar_height_milli == bar_height_milli(screen_h_px, right_amp_milli),
{
    let right_x: i64 = (screen_w_px as i64) * 500 + 20000;
    let left_x: i64 = right_x - BAR_GAP_MILLI - BAR_WIDTH_MILLI;
    let max_h: i64 = (screen_h_px as i64) * 750;
    let left_amp: i64 = if left_amp_milli > (max_h as u64) {
        max_h
    } else {
        left_amp_milli as i64
    };
    let right_amp: i64 = if right_amp_milli > (max_h as u64) {
        max_h
    } else {
        right_amp_milli as i64
    };
    BarGeometry {
        left_bar_start_x_milli: left_x,
        right_bar_start_x_milli: right_x,
        bar_width_milli: BAR_WIDTH_MILLI,
        max_bar_height_milli: max_h,
        left_bar_y_milli: BAR_TOP_Y_MILLI + (max_h - left_amp),
        right_bar_y_milli: BAR_TOP_Y_MILLI + (max_h - right_amp),
        left_bar_height_milli: left_amp,
        right_bar_height_milli: right_amp,
    }
}

/// Geometry reacts monotonically to amplitude: a strictly larger amplitude
/// strictly decreases `bar_y` (the bar grows upward) as long as the larger
/// amplitude is still within the tallest drawable bar.
pub proof fn lemma_bar_y_monotonic(screen_h_px: u32, amp1_milli: u64, amp2_milli: u64)
    requires
        amp1_milli < amp2_milli,
        amp2_milli <= max_bar_height_milli(screen_h_px),
    ensures
        bar_y_milli(screen_h_px, amp2_milli) < bar_y_milli(screen_h_px, amp1_milli),
{
}

/// Clipping keeps every bar inside the drawable column: `bar_y` never rises
/// above the fixed top edge (so never goes negative), the height never
/// exceeds the tallest drawable bar, and the bar's bottom edge is fixed.
pub proof fn lemma_bar_clipped(screen_h_px: u32, amp_milli: u64)
    ensures
        BAR_TOP_Y_MILLI <= bar_y_milli(screen_h_px, amp_milli),
        bar_y_milli(screen_h_px, amp_milli) <= (BAR_TOP_Y_MILLI as int) + max_bar_height_milli(
            screen_h_px,
        ),
        0 <= bar_height_milli(screen_h_px, amp_milli),
        bar_height_milli(screen_h_px, amp_milli) <= max_bar_height_milli(screen_h_px),
        bar_y_milli(screen_h_px, amp_milli) + bar_height_milli(screen_h_px, amp_milli) == (
        BAR_TOP_Y_MILLI as int) + max_bar_height_milli(screen_h_px),
{
}

} // verus!
