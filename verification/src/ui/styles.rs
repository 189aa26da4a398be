//! The measurable part of the visual style: color-zone thresholds over the
//! usage percentage, progress-bar geometry, and the model-table title with
//! its scroll markers. Percentages are hundredths of a percent throughout.

use vstd::prelude::*;
use vstd::string::StringExecFns;

verus! {

/// Most cells a progress bar may use.
pub const MAX_BAR_CELLS: usize = 40;

/// Width of one bar cell in terminal columns (glyph plus trailing space).
pub const CELL_WIDTH: usize = 2;

/// Fewest cells a progress bar may use, to stay visible.
pub const MIN_BAR_CELLS: usize = 10;

/// End of the success zone, in hundredths of a percent.
pub const ZONE_SUCCESS_END: u64 = 7500;

/// End of the warning zone, in hundredths of a percent.
pub const ZONE_WARNING_END: u64 = 9000;

/// The color zone a usage percentage falls into.
#[derive(Debug, Clone, Copy, PartialEq, Eq, Structural)]
pub enum UsageZone {
    /// Below three quarters of the limit.
    Success,
    /// Between three quarters and nine tenths.
    Warning,
    /// Nine tenths of the limit and beyond.
    Error,
}

/// The zone of a percentage given in hundredths of a percent.
pub open spec fn spec_zone(percentage: u64) -> UsageZone {
    if percentage >= ZONE_WARNING_END {
        UsageZone::Error
    } else if percentage >= ZONE_SUCCESS_END {
        UsageZone::Warning
    } else {
        UsageZone::Success
    }
}

impl UsageZone {
    /// The zone of a percentage given in hundredths of a percent.
    pub fn from_percentage(percentage: u64) -> (r: Self)
        ensures
            r == spec_zone(percentage),
    {
        if percentage >= ZONE_WARNING_END {
            UsageZone::Error
        } else if percentage >= ZONE_SUCCESS_END {
            UsageZone::Warning
        } else {
            UsageZone::Success
        }
    }
}

/// Where the success and warning zones end on a segmented bar of
/// `total_cells` cells: after three quarters and after nine tenths of it.
pub fn calculate_zone_boundaries(total_cells: usize) -> (r: (usize, usize))
    requires
        total_cells * 90 <= usize::MAX,
    ensures
        r.0 == total_cells * 75 / 100,
        r.1 == total_cells * 90 / 100,
{
    (total_cells * 75 / 100, total_cells * 90 / 100)
}

/// The bar width that fits the available columns, clamped between the
/// minimum and maximum cell counts.
pub fn calculate_responsive_bar_width(available_width: u16) -> (r: usize)
    ensures
        ({
            let fit = available_width as int / CELL_WIDTH as int;
            let capped = if fit < MAX_BAR_CELLS as int {
                fit
            } else {
                MAX_BAR_CELLS as int
            };
            r == if capped > MIN_BAR_CELLS as int {
                capped
            } else {
                MIN_BAR_CELLS as int
            }
        }),
{
    let fit = available_width as usize / CELL_WIDTH;
    let capped = if fit < MAX_BAR_CELLS {
        fit
    } else {
        MAX_BAR_CELLS
    };
    if capped > MIN_BAR_CELLS {
        capped
    } else {
        MIN_BAR_CELLS
    }
}

/// How many cells of a bar of `total_cells` cells are filled at the given
/// percentage (hundredths of a percent); may exceed the bar for percentages
/// beyond one hundred percent.
pub fn calculate_filled_cells(percentage: u64, total_cells: usize) -> (r: usize)
    requires
        percentage * total_cells <= u64::MAX,
        percentage * total_cells / 10000 <= usize::MAX,
    ensures
        r == percentage * total_cells / 10000,
{
    (percentage * (total_cells as u64) / 10000) as usize
}

/// The model-table title: scroll markers frame the caption when rows are
/// hidden above or below the visible window.
pub open spec fn spec_title(has_scroll: bool, scroll: int, total: int, visible: int) -> Seq<char> {
    let up: Seq<char> = if has_scroll && scroll > 0 {
        "↑ "@
    } else {
        Seq::empty()
    };
    let down: Seq<char> = if has_scroll && scroll + visible < total {
        " ↓"@
    } else {
        Seq::empty()
    };
    up + " Per-Model Usage: "@ + down
}

/// Builds the model-table title with its scroll markers.
pub fn build_title(has_scroll: bool, scroll: usize, total: usize, visible: usize) -> (r: String)
    ensures
        r@ == spec_title(has_scroll, scroll as int, total as int, visible as int),
{
    let mut title = String::new();
    if has_scroll && scroll > 0 {
        title.append("↑ ");
    }
    title.append(" Per-Model Usage: ");
    if has_scroll && scroll < total && visible < total - scroll {
        title.append(" ↓");
    }
    proof {
        assert(title@ =~= spec_title(has_scroll, scroll as int, total as int, visible as int));
    }
    title
}

} // verus!
