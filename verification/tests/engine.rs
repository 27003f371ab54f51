use rdrop::engine::parse_commands;
use rdrop::{Config, Monitor, TermPosition, Workspace};

fn config() -> Config {
    Config {
        terminal: "kitty".to_string(),
        class: "dropterm".to_string(),
        width: 50,
        height: 30,
        gap: 20,
        position: TermPosition::T,
    }
}

fn monitor_1080p() -> Monitor {
    Monitor { width: 1920, height: 1080, focused: true }
}

#[test]
fn absent_window_spawns_once() {
    // Window absent: the plan is exactly one spawn command, and nothing
    // is resized, positioned, pinned or moved.
    let plan = parse_commands(&config(), true, None, None, None);
    assert_eq!(
        plan,
        vec![vec![
            "exec",
            "[workspace special:rdrop silent;float;]",
            "kitty",
            "--class",
            "dropterm",
        ]]
    );
}

#[test]
fn present_on_active_workspace_hides() {
    // Window present on the active workspace: resize, position, pin, then
    // move to the scratch workspace; no focus command.
    let m = monitor_1080p();
    let active = Workspace { id: 4, name: "four".to_string() };
    let plan = parse_commands(&config(), false, Some(4), Some(&m), Some(&active));
    assert_eq!(
        plan,
        vec![
            vec!["resizewindowpixel", "exact", "960", "324", ",", "class:dropterm"],
            vec!["movewindowpixel", "exact", "480", "20", ",", "class:dropterm"],
            vec!["pin", "class:dropterm"],
            vec!["movetoworkspacesilent", "special:rdrop,", "class:dropterm"],
        ]
    );
}

#[test]
fn present_elsewhere_shows_and_focuses() {
    // Window present on another workspace: same head of the sequence, then
    // move to the active workspace and focus.
    let m = monitor_1080p();
    let active = Workspace { id: 2, name: "two".to_string() };
    let plan = parse_commands(&config(), false, Some(5), Some(&m), Some(&active));
    assert_eq!(
        plan,
        vec![
            vec!["resizewindowpixel", "exact", "960", "324", ",", "class:dropterm"],
            vec!["movewindowpixel", "exact", "480", "20", ",", "class:dropterm"],
            vec!["pin", "class:dropterm"],
            vec!["movetoworkspacesilent", "two,", "class:dropterm"],
            vec!["focuswindow", "class:dropterm"],
        ]
    );
}

#[test]
fn right_anchor_plan() {
    let cfg = Config {
        terminal: "kitty".to_string(),
        class: "dropterm".to_string(),
        width: 30,
        height: 50,
        gap: 20,
        position: TermPosition::R,
    };
    let m = monitor_1080p();
    let active = Workspace { id: 1, name: "one".to_string() };
    let plan = parse_commands(&cfg, false, Some(1), Some(&m), Some(&active));
    assert_eq!(plan[0], vec!["resizewindowpixel", "exact", "576", "540", ",", "class:dropterm"]);
    assert_eq!(plan[1], vec!["movewindowpixel", "exact", "1324", "270", ",", "class:dropterm"]);
}
