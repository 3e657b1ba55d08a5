//! Hint sequence, normalization and assignment tests.

use open_sesame::{HintAssignment, HintSequence, Window};

#[test]
fn test_hint_sequence() {
    let seq = HintSequence::new('g', 2);
    assert_eq!(seq.base(), 'g');
    assert_eq!(seq.count(), 2);
    assert_eq!(seq.as_string(), "gg");
}

#[test]
fn test_hint_sequence_from_repeated() {
    assert_eq!(
        HintSequence::from_repeated("ggg"),
        Some(HintSequence::new('g', 3))
    );
    assert_eq!(
        HintSequence::from_repeated("G"),
        Some(HintSequence::new('g', 1))
    );
    assert_eq!(HintSequence::from_repeated("gf"), None);
    assert_eq!(HintSequence::from_repeated("123"), None);
}

#[test]
fn test_normalize_input() {
    // Letter + number patterns
    assert_eq!(open_sesame::normalize_input("g1"), "g");
    assert_eq!(open_sesame::normalize_input("g2"), "gg");
    assert_eq!(open_sesame::normalize_input("g3"), "ggg");
    assert_eq!(open_sesame::normalize_input("f10"), "ffffffffff");

    // Repeated letters pass through
    assert_eq!(open_sesame::normalize_input("g"), "g");
    assert_eq!(open_sesame::normalize_input("gg"), "gg");

    // Case insensitive
    assert_eq!(open_sesame::normalize_input("G2"), "gg");
}

#[test]
fn test_normalize_input_cap() {
    // Counts above 26 are not expanded.
    assert_eq!(open_sesame::normalize_input("g27"), "g27");
    assert_eq!(open_sesame::normalize_input("g26").len(), 26);
    // A zero count is not an expansion either.
    assert_eq!(open_sesame::normalize_input("g0"), "g0");
}

#[test]
fn test_hint_matching() {
    let seq = HintSequence::new('g', 1);
    assert!(seq.matches_input("g"));
    assert!(seq.matches_input("G"));
    assert!(seq.equals_input("g"));
    assert!(!seq.equals_input("gg"));
}

#[test]
fn test_hint_assignment() {
    let windows = vec![
        Window::mock("firefox", "Tab 1"),
        Window::mock("firefox", "Tab 2"),
        Window::mock("ghostty", "Terminal"),
    ];

    let assignment = HintAssignment::assign(&windows, |app_id| match app_id.as_str() {
        "firefox" => Some('f'),
        "ghostty" => Some('g'),
        _ => None,
    });

    assert_eq!(assignment.hints.len(), 3);

    let hint_strings: Vec<_> = assignment.hints.iter().map(|h| h.hint_string()).collect();
    assert!(hint_strings.contains(&"f".to_string()));
    assert!(hint_strings.contains(&"ff".to_string()));
    assert!(hint_strings.contains(&"g".to_string()));
}

#[test]
fn test_hint_assignment_auto_key() {
    // Without a configured key, the first letter of the app id's last
    // dot-segment is used, falling back to 'x'.
    let windows = vec![
        Window::mock("com.mitchellh.ghostty", "Terminal"),
        Window::mock("1234", "Numbers"),
    ];
    let assignment = HintAssignment::assign(&windows, |_| None);
    assert_eq!(assignment.hints[0].hint_string(), "g");
    assert_eq!(assignment.hints[1].hint_string(), "x");
}

#[test]
fn test_hint_round_trip() {
    // Parsing a constructed hint's canonical string gives the hint back.
    for base in ['a', 'g', 'z'] {
        for count in 1..5usize {
            let seq = HintSequence::new(base, count);
            assert_eq!(HintSequence::from_repeated(&seq.as_string()), Some(seq));
        }
    }
}
