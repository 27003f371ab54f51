use rdrop::geometry::{calc_terminal_size_from_percentage, position};
use rdrop::{Monitor, TermPosition, TerminalSize};

fn monitor_1080p() -> Monitor {
    Monitor { width: 1920, height: 1080, focused: true }
}

#[test]
fn scenario_top_anchor() {
    // 1920x1080 monitor, 50% width, 30% height, top anchor, 20px margin.
    let m = monitor_1080p();
    let size = calc_terminal_size_from_percentage(50, 30, &m);
    assert_eq!(size, TerminalSize { width: 960, height: 324 });
    let (x, y) = position(&m, &size, &TermPosition::T, 20);
    assert_eq!(x, 480);
    assert_eq!(y, 20);
}

#[test]
fn scenario_right_anchor() {
    // Same monitor, 30% width, 50% height, right anchor, 20px margin.
    let m = monitor_1080p();
    let size = calc_terminal_size_from_percentage(30, 50, &m);
    assert_eq!(size, TerminalSize { width: 576, height: 540 });
    let (x, y) = position(&m, &size, &TermPosition::R, 20);
    assert_eq!(x, 1324);
    assert_eq!(y, 270);
}

#[test]
fn bottom_anchor() {
    let m = monitor_1080p();
    let size = calc_terminal_size_from_percentage(50, 30, &m);
    let (x, y) = position(&m, &size, &TermPosition::B, 20);
    assert_eq!(x, 480);
    assert_eq!(y, 1080 - (324 + 20));
}

#[test]
fn left_anchor() {
    let m = monitor_1080p();
    let size = calc_terminal_size_from_percentage(30, 50, &m);
    let (x, y) = position(&m, &size, &TermPosition::L, 20);
    assert_eq!(x, 20);
    assert_eq!(y, 270);
}

#[test]
fn size_uses_truncating_division() {
    let m = Monitor { width: 999, height: 777, focused: true };
    let size = calc_terminal_size_from_percentage(50, 50, &m);
    assert_eq!(size, TerminalSize { width: 499, height: 388 });
}

#[test]
fn size_is_permissive_outside_percent_range() {
    // Percentages are taken as given: out-of-range values yield negative
    // or oversized rectangles rather than an error.
    let m = monitor_1080p();
    let negative = calc_terminal_size_from_percentage(-50, 30, &m);
    assert_eq!(negative.width, -960);
    let oversized = calc_terminal_size_from_percentage(150, 100, &m);
    assert_eq!(oversized.width, 2880);
    assert_eq!(oversized.height, 1080);
}

#[test]
fn geometry_is_idempotent() {
    // Two computations on identical inputs yield identical outputs.
    let m = monitor_1080p();
    let size1 = calc_terminal_size_from_percentage(43, 67, &m);
    let size2 = calc_terminal_size_from_percentage(43, 67, &m);
    assert_eq!(size1, size2);
    for anchor in [TermPosition::T, TermPosition::R, TermPosition::B, TermPosition::L] {
        let p1 = position(&m, &size1, &anchor, 13);
        let p2 = position(&m, &size1, &anchor, 13);
        assert_eq!(p1, p2);
    }
}

#[test]
fn anchor_symmetry() {
    let m = monitor_1080p();
    let size = calc_terminal_size_from_percentage(37, 41, &m);
    let top = position(&m, &size, &TermPosition::T, 25);
    let bottom = position(&m, &size, &TermPosition::B, 25);
    assert_eq!(top.0, bottom.0);
    let left = position(&m, &size, &TermPosition::L, 25);
    let right = position(&m, &size, &TermPosition::R, 25);
    assert_eq!(left.1, right.1);
}

#[test]
fn rectangle_within_monitor() {
    let m = monitor_1080p();
    let size = calc_terminal_size_from_percentage(80, 90, &m);
    for anchor in [TermPosition::T, TermPosition::R, TermPosition::B, TermPosition::L] {
        let (x, y) = position(&m, &size, &anchor, 10);
        assert!(0 <= x && x + size.width <= m.width);
        assert!(0 <= y && y + size.height <= m.height);
    }
}

#[test]
fn default_terminal_size() {
    let size = TerminalSize::default();
    assert_eq!(size, TerminalSize { width: 600, height: 400 });
}
