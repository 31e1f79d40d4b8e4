//! Launcher-surface sizing: a pure function from the number of monitored
//! applications to the width and height of the launcher window.
//!
//! The surface is a fixed four-column grid of 80x80 items with a 12px
//! horizontal gap, a 24px vertical gap, 20px reserved below the grid for
//! the running-status indicators, and 30px of padding on all four sides.
//! The width never depends on the application count; only the height grows
//! with the number of rows.

use vstd::prelude::*;

verus! {

pub const ITEM_WIDTH: u32 = 80;
pub const ITEM_HEIGHT: u32 = 80;
pub const GAP_X: u32 = 12;
pub const GAP_Y: u32 = 24;
pub const COLUMNS: u32 = 4;
pub const INDICATOR_SPACE: u32 = 20;
pub const PADDING_TOP: u32 = 30;
pub const PADDING_BOTTOM: u32 = 30;
pub const PADDING_LEFT: u32 = 30;
pub const PADDING_RIGHT: u32 = 30;

/// Largest application count the sizing function accepts; keeps the
/// resulting height within `u32` with a wide margin.
pub const MAX_SIZED_APP_COUNT: usize = 100_000_000;

/// Number of grid rows reserved for `app_count` applications: the ceiling
/// of `app_count / 4`, but never less than one row (an empty registry
/// still shows a one-row surface).
pub open spec fn spec_rows(app_count: nat) -> nat {
    if app_count == 0 {
        1
    } else {
        (app_count + 3) / 4
    }
}

/// Width of the launcher surface for `app_count` applications.
pub open spec fn spec_width(app_count: nat) -> int {
    (4 * 80 + 3 * 12 + 30 + 30) as int
}

/// Height of the launcher surface for `app_count` applications.
pub open spec fn spec_height(app_count: nat) -> int {
    let rows = spec_rows(app_count) as int;
    rows * 80 + (rows - 1) * 24 + 20 + 30 + 30
}

/// `spec_rows` is exactly `max(1, ceil(app_count / 4))`: it is at least 1,
/// it reserves enough cells for every application, and (except for the
/// forced first row) no row is wasted.
pub proof fn lemma_rows_is_clamped_ceiling(app_count: nat)
    ensures
        spec_rows(app_count) >= 1,
        app_count <= spec_rows(app_count) * 4,
        app_count >= 1 ==> (spec_rows(app_count) - 1) * 4 < app_count,
{
}

/// The width of the launcher surface does not depend on the application
/// count: any two counts are given the same width, 416.
pub proof fn lemma_width_constant(a: nat, b: nat)
    ensures
        spec_width(a) == spec_width(b),
        spec_width(a) == 416,
{
}

/// Size, in logical pixels, of the launcher surface that shows `app_count`
/// applications: a constant width of 416 and a height that grows only with
/// the row count.
pub fn calculate_window_size(app_count: usize) -> (size: (u32, u32))
    requires
        app_count <= MAX_SIZED_APP_COUNT,
    ensures
        size.0 == spec_width(app_count as nat),
        size.0 == 416,
        size.1 == spec_height(app_count as nat),
{
    let rows: u32 = if app_count == 0 {
        1
    } else {
        ((app_count + 3) / 4) as u32
    };
    let width: u32 = COLUMNS * ITEM_WIDTH + (COLUMNS - 1) * GAP_X + PADDING_LEFT + PADDING_RIGHT;
    let height: u32 = rows * ITEM_HEIGHT + (rows - 1) * GAP_Y + INDICATOR_SPACE + PADDING_TOP
        + PADDING_BOTTOM;
    (width, height)
}

} // verus!
