use rdrop::state::{find_active_monitor, find_terminal};
use rdrop::{Client, Monitor, Workspace};

fn client(class: &str, ws_id: i32, ws_name: &str) -> Client {
    Client {
        class: class.to_string(),
        workspace: Workspace { id: ws_id, name: ws_name.to_string() },
    }
}

#[test]
fn find_terminal_exact_match() {
    let clients = vec![
        client("firefox", 1, "1"),
        client("dropterm", 3, "3"),
        client("mpv", 2, "2"),
    ];
    let found = find_terminal(&"dropterm".to_string(), clients).unwrap();
    assert_eq!(found.class, "dropterm");
    assert_eq!(found.workspace.id, 3);
}

#[test]
fn find_terminal_absent() {
    let clients = vec![client("firefox", 1, "1"), client("mpv", 2, "2")];
    assert!(find_terminal(&"dropterm".to_string(), clients).is_none());
}

#[test]
fn find_terminal_no_partial_match() {
    let clients = vec![client("dropterm-extra", 1, "1")];
    assert!(find_terminal(&"dropterm".to_string(), clients).is_none());
}

#[test]
fn find_terminal_first_match_wins() {
    // Under duplicate class identifiers the first entry is taken.
    let clients = vec![
        client("dropterm", 7, "7"),
        client("dropterm", 2, "2"),
    ];
    let found = find_terminal(&"dropterm".to_string(), clients).unwrap();
    assert_eq!(found.workspace.id, 7);
}

#[test]
fn find_terminal_empty_list() {
    assert!(find_terminal(&"dropterm".to_string(), Vec::new()).is_none());
}

#[test]
fn find_active_monitor_picks_focused() {
    let monitors = vec![
        Monitor { width: 1280, height: 720, focused: false },
        Monitor { width: 1920, height: 1080, focused: true },
    ];
    let found = find_active_monitor(&monitors).unwrap();
    assert_eq!(found, monitors[1]);
}

#[test]
fn find_active_monitor_none_focused() {
    let monitors = vec![
        Monitor { width: 1280, height: 720, focused: false },
        Monitor { width: 1920, height: 1080, focused: false },
    ];
    assert!(find_active_monitor(&monitors).is_none());
}

#[test]
fn find_active_monitor_first_focused_wins() {
    let monitors = vec![
        Monitor { width: 1280, height: 720, focused: true },
        Monitor { width: 1920, height: 1080, focused: true },
    ];
    let found = find_active_monitor(&monitors).unwrap();
    assert_eq!(found, monitors[0]);
}

#[test]
fn find_active_monitor_empty_list() {
    assert!(find_active_monitor(&Vec::new()).is_none());
}
