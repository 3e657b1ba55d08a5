//! MRU state parsing and reordering tests.

use open_sesame::{parse_mru_contents, reorder_for_mru, MruState, Window};

#[test]
fn test_parse_mru_contents_empty() {
    let state = parse_mru_contents("");
    assert!(state.previous.is_none());
    assert!(state.current.is_none());
}

#[test]
fn test_parse_mru_contents_single_line() {
    let state = parse_mru_contents("window-id-prev");
    assert_eq!(state.previous, Some("window-id-prev".to_string()));
    assert!(state.current.is_none());
}

#[test]
fn test_parse_mru_contents_two_lines() {
    let state = parse_mru_contents("window-prev\nwindow-current");
    assert_eq!(state.previous, Some("window-prev".to_string()));
    assert_eq!(state.current, Some("window-current".to_string()));
}

#[test]
fn test_parse_mru_contents_with_whitespace() {
    let state = parse_mru_contents("  window-prev  \n  window-current  ");
    assert_eq!(state.previous, Some("window-prev".to_string()));
    assert_eq!(state.current, Some("window-current".to_string()));
}

#[test]
fn test_parse_mru_contents_empty_lines() {
    let state = parse_mru_contents("\n");
    assert!(state.previous.is_none());
    assert!(state.current.is_none());
}

#[test]
fn test_mru_state_default() {
    let state = MruState::default();
    assert!(state.current.is_none());
    assert!(state.previous.is_none());
}

#[test]
fn test_reorder_for_mru_basic() {
    // Reorder logic tested independently of file system
    // Algorithm tested via mocked data structures

    #[derive(Debug, Clone, PartialEq)]
    struct MockWindow {
        id: String,
        name: String,
    }

    let mut windows = vec![
        MockWindow {
            id: "a".to_string(),
            name: "Window A".to_string(),
        },
        MockWindow {
            id: "b".to_string(),
            name: "Window B".to_string(),
        },
        MockWindow {
            id: "c".to_string(),
            name: "Window C".to_string(),
        },
    ];

    // Simulates reorder_for_mru behavior with current_id = "a"
    let current_id = "a";
    if let Some(pos) = windows.iter().position(|w| w.id == current_id) {
        if pos < windows.len() - 1 {
            let window = windows.remove(pos);
            windows.push(window);
        }
    }

    assert_eq!(windows[0].id, "b");
    assert_eq!(windows[1].id, "c");
    assert_eq!(windows[2].id, "a"); // Moved to end position
}

#[test]
fn test_reorder_already_at_end() {
    #[derive(Debug, Clone, PartialEq)]
    struct MockWindow {
        id: String,
    }

    let mut windows = vec![
        MockWindow {
            id: "a".to_string(),
        },
        MockWindow {
            id: "b".to_string(),
        },
        MockWindow {
            id: "c".to_string(),
        },
    ];

    // current_id "c" already at end, no movement
    let current_id = "c";
    let original = windows.clone();
    if let Some(pos) = windows.iter().position(|w| w.id == current_id) {
        if pos < windows.len() - 1 {
            let window = windows.remove(pos);
            windows.push(window);
        }
    }

    assert_eq!(windows, original);
}

#[test]
fn test_reorder_not_found() {
    #[derive(Debug, Clone, PartialEq)]
    struct MockWindow {
        id: String,
    }

    let mut windows = vec![
        MockWindow {
            id: "a".to_string(),
        },
        MockWindow {
            id: "b".to_string(),
        },
    ];

    // Nonexistent current_id causes no changes
    let current_id = "nonexistent";
    let original = windows.clone();
    if let Some(pos) = windows.iter().position(|w| w.id == current_id) {
        if pos < windows.len() - 1 {
            let window = windows.remove(pos);
            windows.push(window);
        }
    }

    assert_eq!(windows, original);
}

#[test]
fn test_reorder_for_mru_windows() {
    let mut windows = vec![
        Window::new("a", "app-a", "Window A"),
        Window::new("b", "app-b", "Window B"),
        Window::new("c", "app-c", "Window C"),
    ];
    reorder_for_mru(&mut windows, Some("a"));
    assert_eq!(windows[0].id.as_str(), "b");
    assert_eq!(windows[1].id.as_str(), "c");
    assert_eq!(windows[2].id.as_str(), "a");

    // A missing id changes nothing.
    reorder_for_mru(&mut windows, Some("zzz"));
    assert_eq!(windows[0].id.as_str(), "b");

    // An id already at the end changes nothing.
    reorder_for_mru(&mut windows, Some("a"));
    assert_eq!(windows[2].id.as_str(), "a");
}
