//! Input matching tests.

use open_sesame::{HintAssignment, HintMatcher, MatchResult, Window, WindowHint};

fn create_test_hints() -> Vec<WindowHint> {
    let windows = vec![
        Window::mock("firefox", "Tab 1"),
        Window::mock("firefox", "Tab 2"),
        Window::mock("ghostty", "Terminal"),
    ];

    HintAssignment::assign(&windows, |app_id| match app_id.as_str() {
        "firefox" => Some('f'),
        "ghostty" => Some('g'),
        _ => None,
    })
    .hints
}

#[test]
fn test_match_exact_single() {
    let hints = create_test_hints();
    let matcher = HintMatcher::new(&hints);

    // "g" should match ghostty exactly
    let result = matcher.match_input("g");
    assert!(result.is_exact());
}

#[test]
fn test_match_exact_with_multiple_windows() {
    let hints = create_test_hints();
    let matcher = HintMatcher::new(&hints);

    // "f" is exact match for first firefox
    let result = matcher.match_input("f");
    assert!(result.is_exact());

    // "ff" is exact match for second firefox
    let result = matcher.match_input("ff");
    assert!(result.is_exact());
}

#[test]
fn test_match_none() {
    let hints = create_test_hints();
    let matcher = HintMatcher::new(&hints);

    let result = matcher.match_input("x");
    assert!(result.is_none());
}

#[test]
fn test_match_number_pattern() {
    let hints = create_test_hints();
    let matcher = HintMatcher::new(&hints);

    // "g1" = "g" = exact match
    let result = matcher.match_input("g1");
    assert!(result.is_exact());

    // "f2" = "ff" = exact match for second firefox
    let result = matcher.match_input("f2");
    assert!(result.is_exact());
}

#[test]
fn test_filter_hints() {
    let hints = create_test_hints();
    let matcher = HintMatcher::new(&hints);

    // Empty input shows all
    let filtered = matcher.filter_hints("");
    assert_eq!(filtered.len(), 3);

    // "f" shows both firefox windows
    let filtered = matcher.filter_hints("f");
    assert_eq!(filtered.len(), 2);

    // "ff" shows only second firefox
    let filtered = matcher.filter_hints("ff");
    assert_eq!(filtered.len(), 1);
}

#[test]
fn test_match_targets() {
    // With hints "f" -> first window and "ff" -> second window:
    // "f" selects the first, "ff" the second, "x" nothing, and the
    // empty input is a partial match on both.
    let hints = create_test_hints();
    let matcher = HintMatcher::new(&hints);

    match matcher.match_input("f") {
        MatchResult::Exact { index, window_id } => {
            assert_eq!(index, 0);
            assert_eq!(window_id.as_str(), hints[0].window_id.as_str());
        }
        other => panic!("expected exact match for 'f', got {:?}", other),
    }
    match matcher.match_input("ff") {
        MatchResult::Exact { index, window_id } => {
            assert_eq!(index, 1);
            assert_eq!(window_id.as_str(), hints[1].window_id.as_str());
        }
        other => panic!("expected exact match for 'ff', got {:?}", other),
    }
    assert!(matcher.match_input("x").is_none());
    match matcher.match_input("") {
        MatchResult::Partial(indices) => {
            assert_eq!(indices, vec![0, 1, 2]);
        }
        other => panic!("expected partial match for empty input, got {:?}", other),
    }
}
