//! Pure geometry: percentage-of-monitor sizing and anchor positioning.

use vstd::prelude::*;
use crate::{Monitor, TerminalSize, TermPosition};

verus! {

/// Rust's truncating division for a positive divisor: rounds toward zero,
/// where spec-mode `/` rounds toward negative infinity.
pub open spec fn trunc_div(a: int, b: int) -> int {
    if a >= 0 {
        a / b
    } else {
        -((-a) / b)
    }
}

/// The terminal size derived from a monitor and the configured percentages,
/// with truncating integer division.
pub open spec fn spec_terminal_size(monitor: Monitor, width_percent: int, height_percent: int) -> TerminalSize {
    TerminalSize {
        width: trunc_div(monitor.width * width_percent, 100) as i32,
        height: trunc_div(monitor.height * height_percent, 100) as i32,
    }
}

/// Calculate the terminal size from monitor dimensions and configured
/// width/height percentages. Percentages are taken as given: values outside
/// [0, 100] yield negative or oversized rectangles, as configured.
pub fn calc_terminal_size_from_percentage(width_percent: i32, height_percent: i32, monitor: &Monitor) -> (size: TerminalSize)
    requires
        i32::MIN <= monitor.width * width_percent <= i32::MAX,
        i32::MIN <= monitor.height * height_percent <= i32::MAX,
    ensures
        size == spec_terminal_size(*monitor, width_percent as int, height_percent as int),
{
    let terminal_width = (monitor.width * width_percent) / 100;
    let terminal_height = (monitor.height * height_percent) / 100;
    TerminalSize { width: terminal_width, height: terminal_height }
}

/// The x coordinate for a size and anchor on a monitor: centered for top and
/// bottom anchors, at the margin for a left anchor, at the margin from the
/// right edge for a right anchor.
pub open spec fn spec_position_x(monitor: Monitor, size: TerminalSize, anchor: TermPosition, gap: int) -> int {
    match anchor {
        TermPosition::T => trunc_div(monitor.width - size.width, 2),
        TermPosition::R => monitor.width - (size.width + gap),
        TermPosition::B => trunc_div(monitor.width - size.width, 2),
        TermPosition::L => gap,
    }
}

/// The y coordinate for a size and anchor on a monitor: centered for left
/// and right anchors, at the margin for a top anchor, at the margin from the
/// bottom edge for a bottom anchor.
pub open spec fn spec_position_y(monitor: Monitor, size: TerminalSize, anchor: TermPosition, gap: int) -> int {
    match anchor {
        TermPosition::T => gap,
        TermPosition::R => trunc_div(monitor.height - size.height, 2),
        TermPosition::B => monitor.height - (size.height + gap),
        TermPosition::L => trunc_div(monitor.height - size.height, 2),
    }
}

/// Whether the position arithmetic for every anchor stays within `i32`.
pub open spec fn position_fits(monitor: Monitor, size: TerminalSize, gap: int) -> bool {
    &&& i32::MIN <= monitor.width - size.width <= i32::MAX
    &&& i32::MIN <= monitor.height - size.height <= i32::MAX
    &&& i32::MIN <= size.width + gap <= i32::MAX
    &&& i32::MIN <= size.height + gap <= i32::MAX
    &&& i32::MIN <= monitor.width - (size.width + gap) <= i32::MAX
    &&& i32::MIN <= monitor.height - (size.height + gap) <= i32::MAX
}

/// The absolute pixel position of the window's top-left corner for the
/// given anchor and margin.
pub fn position(monitor: &Monitor, size: &TerminalSize, anchor: &TermPosition, gap: i32) -> (pos: (i32, i32))
    requires
        position_fits(*monitor, *size, gap as int),
    ensures
        pos.0 == spec_position_x(*monitor, *size, *anchor, gap as int),
        pos.1 == spec_position_y(*monitor, *size, *anchor, gap as int),
{
    match anchor {
        TermPosition::T => {
            let x = (monitor.width - size.width) / 2;
            (x, gap)
        },
        TermPosition::R => {
            let x = monitor.width - (size.width + gap);
            let y = (monitor.height - size.height) / 2;
            (x, y)
        },
        TermPosition::B => {
            let x = (monitor.width - size.width) / 2;
            let y = monitor.height - (size.height + gap);
            (x, y)
        },
        TermPosition::L => {
            let y = (monitor.height - size.height) / 2;
            (gap, y)
        },
    }
}

proof fn lemma_size_dim_in_range(dim: int, percent: int)
    requires
        0 <= dim,
        0 <= percent <= 100,
    ensures
        0 <= trunc_div(dim * percent, 100) <= dim,
{
    assert(0 <= dim * percent && dim * percent <= dim * 100) by (nonlinear_arith)
        requires
            0 <= dim && 0 <= percent <= 100,
    ;
    vstd::arithmetic::div_mod::lemma_div_pos_is_pos(dim * percent, 100);
    vstd::arithmetic::div_mod::lemma_div_is_ordered(dim * percent, dim * 100, 100);
    vstd::arithmetic::div_mod::lemma_div_by_multiple(dim, 100);
}

/// For every monitor and anchor, the computed rectangle lies within
/// [0, width] x [0, height] of the monitor, whenever the percentages lie in
/// [0, 100], the margin is nonnegative, and margin plus size fits within the
/// monitor dimension.
pub proof fn lemma_geometry_within_monitor(monitor: Monitor, width_percent: int, height_percent: int, anchor: TermPosition, gap: int)
    requires
        0 <= monitor.width,
        0 <= monitor.height,
        0 <= width_percent <= 100,
        0 <= height_percent <= 100,
        0 <= gap,
        gap + spec_terminal_size(monitor, width_percent, height_percent).width <= monitor.width,
        gap + spec_terminal_size(monitor, width_percent, height_percent).height <= monitor.height,
    ensures
        ({
            let size = spec_terminal_size(monitor, width_percent, height_percent);
            let x = spec_position_x(monitor, size, anchor, gap);
            let y = spec_position_y(monitor, size, anchor, gap);
            &&& 0 <= size.width <= monitor.width
            &&& 0 <= size.height <= monitor.height
            &&& 0 <= x
            &&& x + size.width <= monitor.width
            &&& 0 <= y
            &&& y + size.height <= monitor.height
        }),
{
    lemma_size_dim_in_range(monitor.width as int, width_percent);
    lemma_size_dim_in_range(monitor.height as int, height_percent);
    let size = spec_terminal_size(monitor, width_percent, height_percent);
    let w = size.width as int;
    let h = size.height as int;
    vstd::arithmetic::div_mod::lemma_div_pos_is_pos(monitor.width - w, 2);
    vstd::arithmetic::div_mod::lemma_div_nonincreasing(monitor.width - w, 2);
    vstd::arithmetic::div_mod::lemma_div_pos_is_pos(monitor.height - h, 2);
    vstd::arithmetic::div_mod::lemma_div_nonincreasing(monitor.height - h, 2);
}

/// Anchor symmetry: top and bottom anchors center horizontally in the same
/// way, so they agree on x for equal sizes; left and right anchors center
/// vertically in the same way, so they agree on y.
pub proof fn lemma_anchor_symmetry(monitor: Monitor, size: TerminalSize, gap: int)
    ensures
        spec_position_x(monitor, size, TermPosition::T, gap) == spec_position_x(monitor, size, TermPosition::B, gap),
        spec_position_y(monitor, size, TermPosition::L, gap) == spec_position_y(monitor, size, TermPosition::R, gap),
{
}

/// Geometry is a pure function of its inputs: any two results computed from
/// identical monitor, percentage, size, anchor and margin inputs coincide.
pub proof fn lemma_geometry_deterministic(monitor: Monitor, width_percent: int, height_percent: int, size: TerminalSize, anchor: TermPosition, gap: int, size1: TerminalSize, size2: TerminalSize, pos1: (int, int), pos2: (int, int))
    requires
        size1 == spec_terminal_size(monitor, width_percent, height_percent),
        size2 == spec_terminal_size(monitor, width_percent, height_percent),
        pos1 == ((spec_position_x(monitor, size, anchor, gap), spec_position_y(monitor, size, anchor, gap))),
        pos2 == ((spec_position_x(monitor, size, anchor, gap), spec_position_y(monitor, size, anchor, gap))),
    ensures
        size1 == size2,
        pos1 == pos2,
{
}

} // verus!
