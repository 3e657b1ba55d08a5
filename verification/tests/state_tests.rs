//! State machine tests.  Time is passed in explicitly as milliseconds,
//! and keys as keysym codes.

use open_sesame::{
    Action, ActivationResult, AppState, Config, Event, HintSequence, TimeoutTracker, WindowHint,
    WindowId, KEY_BACKSPACE, KEY_DOWN, KEY_ESCAPE, KEY_RETURN, KEY_TAB, KEY_UP,
};

fn make_test_config() -> Config {
    let mut config = Config::default();
    config.settings.overlay_delay = 500;
    config.settings.activation_delay = 200;
    config.settings.quick_switch_threshold = 250;
    config
}

/// Creates test hints with sequential letter assignments starting from 'a'.
fn make_hints(count: usize) -> Vec<WindowHint> {
    (0..count)
        .map(|i| WindowHint {
            hint: HintSequence::new((b'a' + i as u8) as char, 1),
            app_id: format!("app{}", i),
            window_id: WindowId::new(&format!("window{}", i)),
            title: format!("Window {}", i),
            index: i,
        })
        .collect()
}

/// Creates realistic test hints matching real application configuration.
fn make_realistic_hints() -> Vec<WindowHint> {
    vec![
        WindowHint {
            hint: HintSequence::new('e', 1),
            app_id: "microsoft-edge".to_string(),
            window_id: WindowId::new("win-edge-abc123"),
            title: "Microsoft Edge".to_string(),
            index: 0,
        },
        WindowHint {
            hint: HintSequence::new('f', 1),
            app_id: "firefox".to_string(),
            window_id: WindowId::new("win-firefox-def456"),
            title: "Mozilla Firefox".to_string(),
            index: 1,
        },
        WindowHint {
            hint: HintSequence::new('g', 1),
            app_id: "com.mitchellh.ghostty".to_string(),
            window_id: WindowId::new("win-ghostty-ghi789"),
            title: "ghostty".to_string(),
            index: 2,
        },
    ]
}

#[test]
fn test_initial_state_switcher_mode() {
    let hints = make_hints(3);
    let state = AppState::initial(false, &hints, None, 0);
    assert!(
        matches!(state, AppState::BorderOnly { .. }),
        "Switcher mode starts in BorderOnly state"
    );
}

#[test]
fn test_initial_state_launcher_mode() {
    let hints = make_hints(3);
    let state = AppState::initial(true, &hints, None, 0);
    match state {
        AppState::FullOverlay {
            selected_hint_index,
            input,
        } => {
            assert_eq!(
                selected_hint_index, 0,
                "Starts with first item selected when no previous window"
            );
            assert!(input.is_empty(), "Starts with empty input");
        }
        _ => panic!("Launcher mode starts in FullOverlay state"),
    }
}

#[test]
fn test_initial_state_launcher_mode_with_previous() {
    let hints = make_realistic_hints();
    // Previous window (firefox) at index 1
    let state = AppState::initial(true, &hints, Some("win-firefox-def456"), 0);
    match state {
        AppState::FullOverlay {
            selected_hint_index,
            input,
        } => {
            assert_eq!(
                selected_hint_index, 1,
                "Starts with previous window selected"
            );
            assert!(input.is_empty(), "Starts with empty input");
        }
        _ => panic!("Launcher mode starts in FullOverlay state"),
    }
}

#[test]
fn test_initial_state_launcher_mode_with_invalid_previous() {
    let hints = make_realistic_hints();
    // Previous window does not exist
    let state = AppState::initial(true, &hints, Some("nonexistent-window"), 0);
    match state {
        AppState::FullOverlay {
            selected_hint_index,
            input,
        } => {
            assert_eq!(
                selected_hint_index, 0,
                "Falls back to index 0 when previous window not found"
            );
            assert!(input.is_empty(), "Starts with empty input");
        }
        _ => panic!("Launcher mode starts in FullOverlay state"),
    }
}

#[test]
fn test_cycle_forward() {
    assert_eq!(open_sesame::cycle_index(0, 3, true), 1);
    assert_eq!(open_sesame::cycle_index(1, 3, true), 2);
    assert_eq!(open_sesame::cycle_index(2, 3, true), 0, "Wraps to 0");
}

#[test]
fn test_cycle_backward() {
    assert_eq!(open_sesame::cycle_index(2, 3, false), 1);
    assert_eq!(open_sesame::cycle_index(1, 3, false), 0);
    assert_eq!(open_sesame::cycle_index(0, 3, false), 2, "Wraps to last");
}

#[test]
fn test_cycle_empty() {
    assert_eq!(open_sesame::cycle_index(0, 0, true), 0, "Empty list returns 0");
    assert_eq!(open_sesame::cycle_index(0, 0, false), 0);
}

#[test]
fn test_cycle_round_trip() {
    // One step forward and one step back return to the start.
    for len in 1..5usize {
        for i in 0..len {
            let forward = open_sesame::cycle_index(i, len, true);
            assert_eq!(open_sesame::cycle_index(forward, len, false), i);
        }
    }
}

#[test]
fn test_keysym_to_char_letters() {
    // Lowercase letter keysym values equal ASCII codes
    assert_eq!(open_sesame::keysym_to_char(0x67), Some('g'));
    assert_eq!(open_sesame::keysym_to_char(0x66), Some('f'));
    assert_eq!(open_sesame::keysym_to_char(0x65), Some('e'));
}

#[test]
fn test_keysym_to_char_non_printable() {
    assert_eq!(open_sesame::keysym_to_char(KEY_TAB), None);
    assert_eq!(open_sesame::keysym_to_char(KEY_ESCAPE), None);
    assert_eq!(open_sesame::keysym_to_char(KEY_RETURN), None);
}

#[test]
fn test_is_tab() {
    assert!(open_sesame::is_tab(KEY_TAB));
    assert!(open_sesame::is_tab(open_sesame::KEY_ISO_LEFT_TAB));
    assert!(open_sesame::is_tab(0xff09));
    assert!(open_sesame::is_tab(0xfe20));
    assert!(!open_sesame::is_tab(KEY_RETURN));
    assert!(!open_sesame::is_tab(0x67));
}

#[test]
fn test_border_only_tick_before_delay() {
    let config = make_test_config();
    let hints = make_realistic_hints();

    let state = AppState::BorderOnly {
        start_time: 0,
        frame_count: 5,
    };

    let transition = state.handle_event(Event::Tick, &config, &hints, None, 0);

    assert!(
        matches!(transition.new_state, AppState::BorderOnly { .. }),
        "Remains in BorderOnly state before delay elapsed"
    );
    assert!(
        transition.actions.is_empty(),
        "No redraw scheduled before delay elapsed"
    );
}

#[test]
fn test_border_only_tick_after_delay_transitions() {
    let config = make_test_config();
    let hints = make_realistic_hints();

    // State whose start time lies 600 ms in the past
    let state = AppState::BorderOnly {
        start_time: 0,
        frame_count: 5,
    };

    let transition = state.handle_event(Event::Tick, &config, &hints, None, 600);

    match transition.new_state {
        AppState::FullOverlay {
            selected_hint_index,
            input,
        } => {
            assert_eq!(selected_hint_index, 0);
            assert!(input.is_empty());
        }
        _ => panic!("Transitions to FullOverlay after delay"),
    }
    assert!(transition.actions.contains(&Action::ScheduleRedraw));
}

#[test]
fn test_border_only_requires_minimum_frames() {
    let config = make_test_config();
    let hints = make_realistic_hints();

    // Elapsed start time but insufficient frames rendered
    let state = AppState::BorderOnly {
        start_time: 0,
        frame_count: 1, // Less than 2
    };

    let transition = state.handle_event(Event::Tick, &config, &hints, None, 600);

    assert!(
        matches!(transition.new_state, AppState::BorderOnly { .. }),
        "Does not transition without minimum frames rendered"
    );
}

#[test]
fn test_border_only_frame_callback_increments_counter() {
    let config = make_test_config();
    let hints = make_realistic_hints();

    let state = AppState::BorderOnly {
        start_time: 0,
        frame_count: 0,
    };

    let transition = state.handle_event(Event::FrameCallback, &config, &hints, None, 0);

    match transition.new_state {
        AppState::BorderOnly { frame_count, .. } => {
            assert_eq!(frame_count, 1, "Frame count increments");
        }
        _ => panic!("Remains in BorderOnly state"),
    }
}

#[test]
fn test_border_only_quick_alt_release_with_previous_window() {
    let config = make_test_config();
    let hints = make_realistic_hints();

    // Quick release before threshold: 100 ms elapsed
    let state = AppState::BorderOnly {
        start_time: 0,
        frame_count: 0,
    };

    let transition = state.handle_event(
        Event::AltReleased,
        &config,
        &hints,
        Some("win-firefox-def456"),
        100,
    );

    match transition.new_state {
        AppState::Exiting {
            result: ActivationResult::Window(idx),
        } => {
            assert_eq!(idx, 1, "Activates firefox at index 1");
        }
        _ => panic!("Exits with window activation result"),
    }
    assert!(transition.actions.contains(&Action::Exit));
}

#[test]
fn test_border_only_quick_alt_release_no_previous() {
    let config = make_test_config();
    let hints = make_realistic_hints();

    let state = AppState::BorderOnly {
        start_time: 0,
        frame_count: 0,
    };

    let transition = state.handle_event(Event::AltReleased, &config, &hints, None, 0);

    match transition.new_state {
        AppState::Exiting {
            result: ActivationResult::QuickSwitch,
        } => {}
        _ => panic!("Exits with QuickSwitch when no previous window"),
    }
}

#[test]
fn test_border_only_slow_alt_release_activates_first() {
    let config = make_test_config();
    let hints = make_realistic_hints();

    // Slow release after threshold: 300 ms elapsed
    let state = AppState::BorderOnly {
        start_time: 0,
        frame_count: 0,
    };

    let transition = state.handle_event(Event::AltReleased, &config, &hints, None, 300);

    match transition.new_state {
        AppState::Exiting {
            result: ActivationResult::Window(idx),
        } => {
            assert_eq!(idx, 0, "Activates first window");
        }
        _ => panic!("Exits with window 0 activation"),
    }
}

#[test]
fn test_border_only_tab_transitions_to_full() {
    let config = make_test_config();
    let hints = make_realistic_hints();

    let state = AppState::BorderOnly {
        start_time: 0,
        frame_count: 0,
    };

    let transition = state.handle_event(
        Event::KeyPress {
            keysym: KEY_TAB,
            shift: false,
        },
        &config,
        &hints,
        None,
        0,
    );

    match transition.new_state {
        AppState::FullOverlay {
            selected_hint_index,
            ..
        } => {
            assert_eq!(selected_hint_index, 1, "Tab selects index 1");
        }
        _ => panic!("Tab transitions to FullOverlay"),
    }
}

#[test]
fn test_border_only_shift_tab_selects_last() {
    let config = make_test_config();
    let hints = make_realistic_hints();

    let state = AppState::BorderOnly {
        start_time: 0,
        frame_count: 0,
    };

    let transition = state.handle_event(
        Event::KeyPress {
            keysym: KEY_TAB,
            shift: true,
        },
        &config,
        &hints,
        None,
        0,
    );

    match transition.new_state {
        AppState::FullOverlay {
            selected_hint_index,
            ..
        } => {
            assert_eq!(selected_hint_index, 2, "Shift+Tab selects last");
        }
        _ => panic!("Shift+Tab transitions to FullOverlay"),
    }
}

#[test]
fn test_border_only_character_key_goes_to_pending_on_exact_match() {
    let config = make_test_config();
    let hints = make_realistic_hints();

    let state = AppState::BorderOnly {
        start_time: 0,
        frame_count: 0,
    };

    // Press 'g' matches ghostty exactly
    let transition = state.handle_event(
        Event::KeyPress {
            keysym: 0x67, // 'g'
            shift: false,
        },
        &config,
        &hints,
        None,
        0,
    );

    match transition.new_state {
        AppState::PendingActivation {
            hint_index, input, ..
        } => {
            assert_eq!(hint_index, 2, "Matches ghostty at index 2");
            assert_eq!(input, "g");
        }
        _ => panic!(
            "Character key with exact match transitions to PendingActivation, got {:?}",
            transition.new_state
        ),
    }
}

#[test]
fn test_border_only_escape_cancels() {
    let config = make_test_config();
    let hints = make_realistic_hints();

    let state = AppState::BorderOnly {
        start_time: 0,
        frame_count: 0,
    };

    let transition = state.handle_event(
        Event::KeyPress {
            keysym: KEY_ESCAPE,
            shift: false,
        },
        &config,
        &hints,
        None,
        0,
    );

    assert!(matches!(
        transition.new_state,
        AppState::Exiting {
            result: ActivationResult::Cancelled
        }
    ));
}

#[test]
fn test_full_overlay_tab_cycles_selection() {
    let config = make_test_config();
    let hints = make_hints(3);
    let state = AppState::FullOverlay {
        selected_hint_index: 0,
        input: String::new(),
    };

    let transition = state.handle_event(
        Event::KeyPress {
            keysym: KEY_TAB,
            shift: false,
        },
        &config,
        &hints,
        None,
        0,
    );

    match transition.new_state {
        AppState::FullOverlay {
            selected_hint_index,
            ..
        } => {
            assert_eq!(selected_hint_index, 1);
        }
        _ => panic!("Expected FullOverlay"),
    }
}

#[test]
fn test_full_overlay_down_arrow_cycles() {
    let config = make_test_config();
    let hints = make_hints(3);
    let state = AppState::FullOverlay {
        selected_hint_index: 0,
        input: String::new(),
    };

    let transition = state.handle_event(
        Event::KeyPress {
            keysym: KEY_DOWN,
            shift: false,
        },
        &config,
        &hints,
        None,
        0,
    );

    match transition.new_state {
        AppState::FullOverlay {
            selected_hint_index,
            ..
        } => {
            assert_eq!(selected_hint_index, 1);
        }
        _ => panic!("Down arrow should cycle selection"),
    }
}

#[test]
fn test_full_overlay_up_arrow_cycles() {
    let config = make_test_config();
    let hints = make_hints(3);
    let state = AppState::FullOverlay {
        selected_hint_index: 1,
        input: String::new(),
    };

    let transition = state.handle_event(
        Event::KeyPress {
            keysym: KEY_UP,
            shift: false,
        },
        &config,
        &hints,
        None,
        0,
    );

    match transition.new_state {
        AppState::FullOverlay {
            selected_hint_index,
            ..
        } => {
            assert_eq!(selected_hint_index, 0);
        }
        _ => panic!("Up arrow should cycle selection"),
    }
}

#[test]
fn test_full_overlay_enter_activates_selected() {
    let config = make_test_config();
    let hints = make_hints(3);
    let state = AppState::FullOverlay {
        selected_hint_index: 2,
        input: String::new(),
    };

    let transition = state.handle_event(
        Event::KeyPress {
            keysym: KEY_RETURN,
            shift: false,
        },
        &config,
        &hints,
        None,
        0,
    );

    match transition.new_state {
        AppState::Exiting {
            result: ActivationResult::Window(idx),
        } => {
            assert_eq!(idx, 2);
        }
        _ => panic!("Enter should activate selected window"),
    }
}

#[test]
fn test_full_overlay_escape_cancels() {
    let config = make_test_config();
    let hints = make_hints(3);
    let state = AppState::FullOverlay {
        selected_hint_index: 0,
        input: String::new(),
    };

    let transition = state.handle_event(
        Event::KeyPress {
            keysym: KEY_ESCAPE,
            shift: false,
        },
        &config,
        &hints,
        None,
        0,
    );

    assert!(matches!(
        transition.new_state,
        AppState::Exiting {
            result: ActivationResult::Cancelled
        }
    ));
}

#[test]
fn test_full_overlay_backspace_removes_char() {
    let config = make_test_config();
    let hints = make_hints(3);
    let state = AppState::FullOverlay {
        selected_hint_index: 0,
        input: "ab".to_string(),
    };

    let transition = state.handle_event(
        Event::KeyPress {
            keysym: KEY_BACKSPACE,
            shift: false,
        },
        &config,
        &hints,
        None,
        0,
    );

    match transition.new_state {
        AppState::FullOverlay { input, .. } => {
            assert_eq!(input, "a");
        }
        _ => panic!("Backspace should stay in FullOverlay"),
    }
}

#[test]
fn test_full_overlay_alt_released_activates() {
    let config = make_test_config();
    let hints = make_hints(3);
    let state = AppState::FullOverlay {
        selected_hint_index: 1,
        input: String::new(),
    };

    let transition = state.handle_event(Event::AltReleased, &config, &hints, None, 0);

    match transition.new_state {
        AppState::Exiting {
            result: ActivationResult::Window(idx),
        } => {
            assert_eq!(idx, 1);
        }
        _ => panic!("Alt release should activate selected window"),
    }
}

#[test]
fn test_full_overlay_character_exact_match_goes_pending() {
    let config = make_test_config();
    let hints = make_realistic_hints();
    let state = AppState::FullOverlay {
        selected_hint_index: 0,
        input: String::new(),
    };

    // Press 'f' which should match firefox exactly
    let transition = state.handle_event(
        Event::KeyPress {
            keysym: 0x66, // 'f'
            shift: false,
        },
        &config,
        &hints,
        None,
        0,
    );

    match transition.new_state {
        AppState::PendingActivation {
            hint_index, input, ..
        } => {
            assert_eq!(hint_index, 1, "Should match firefox");
            assert_eq!(input, "f");
        }
        _ => panic!("Exact match should go to PendingActivation"),
    }
}

#[test]
fn test_full_overlay_ipc_cycle_forward() {
    let config = make_test_config();
    let hints = make_hints(3);
    let state = AppState::FullOverlay {
        selected_hint_index: 0,
        input: String::new(),
    };

    let transition = state.handle_event(Event::CycleForward, &config, &hints, None, 0);

    match transition.new_state {
        AppState::FullOverlay {
            selected_hint_index,
            ..
        } => {
            assert_eq!(selected_hint_index, 1);
        }
        _ => panic!("CycleForward should update selection"),
    }
}

#[test]
fn test_full_overlay_ipc_cycle_backward() {
    let config = make_test_config();
    let hints = make_hints(3);
    let state = AppState::FullOverlay {
        selected_hint_index: 1,
        input: String::new(),
    };

    let transition = state.handle_event(Event::CycleBackward, &config, &hints, None, 0);

    match transition.new_state {
        AppState::FullOverlay {
            selected_hint_index,
            ..
        } => {
            assert_eq!(selected_hint_index, 0);
        }
        _ => panic!("CycleBackward should update selection"),
    }
}

#[test]
fn test_pending_activation_timeout_activates() {
    let config = make_test_config();
    let hints = make_realistic_hints();

    let mut timeout = TimeoutTracker::new(config.settings.activation_delay);
    timeout.start(0);
    let state = AppState::PendingActivation {
        hint_index: 2,
        input: "g".to_string(),
        timeout,
    };

    // Tick after the activation delay has elapsed
    let transition = state.handle_event(Event::Tick, &config, &hints, None, 250);

    match transition.new_state {
        AppState::Exiting {
            result: ActivationResult::Window(idx),
        } => {
            assert_eq!(idx, 2);
        }
        _ => panic!("Timeout should activate window"),
    }
}

#[test]
fn test_pending_activation_no_timeout_yet() {
    let config = make_test_config();
    let hints = make_realistic_hints();

    let mut timeout = TimeoutTracker::new(config.settings.activation_delay);
    timeout.start(0);
    let state = AppState::PendingActivation {
        hint_index: 2,
        input: "g".to_string(),
        timeout,
    };

    let transition = state.handle_event(Event::Tick, &config, &hints, None, 100);

    assert!(
        matches!(transition.new_state, AppState::PendingActivation { .. }),
        "Should stay pending before timeout"
    );
}

#[test]
fn test_pending_activation_escape_cancels() {
    let config = make_test_config();
    let hints = make_realistic_hints();

    let mut timeout = TimeoutTracker::new(config.settings.activation_delay);
    timeout.start(0);
    let state = AppState::PendingActivation {
        hint_index: 2,
        input: "g".to_string(),
        timeout,
    };

    let transition = state.handle_event(
        Event::KeyPress {
            keysym: KEY_ESCAPE,
            shift: false,
        },
        &config,
        &hints,
        None,
        0,
    );

    assert!(matches!(
        transition.new_state,
        AppState::Exiting {
            result: ActivationResult::Cancelled
        }
    ));
}

#[test]
fn test_pending_activation_backspace_returns_to_full() {
    let config = make_test_config();
    let hints = make_realistic_hints();

    let mut timeout = TimeoutTracker::new(config.settings.activation_delay);
    timeout.start(0);
    let state = AppState::PendingActivation {
        hint_index: 2,
        input: "g".to_string(),
        timeout,
    };

    let transition = state.handle_event(
        Event::KeyPress {
            keysym: KEY_BACKSPACE,
            shift: false,
        },
        &config,
        &hints,
        None,
        0,
    );

    match transition.new_state {
        AppState::FullOverlay { input, .. } => {
            assert!(input.is_empty(), "Backspace should remove char");
        }
        _ => panic!("Backspace should return to FullOverlay"),
    }
}

#[test]
fn test_pending_activation_alt_release_activates_immediately() {
    let config = make_test_config();
    let hints = make_realistic_hints();

    let mut timeout = TimeoutTracker::new(config.settings.activation_delay);
    timeout.start(0);
    let state = AppState::PendingActivation {
        hint_index: 1,
        input: "f".to_string(),
        timeout,
    };

    let transition = state.handle_event(Event::AltReleased, &config, &hints, None, 0);

    match transition.new_state {
        AppState::Exiting {
            result: ActivationResult::Window(idx),
        } => {
            assert_eq!(idx, 1);
        }
        _ => panic!("Alt release should activate immediately"),
    }
}

#[test]
fn test_scenario_launcher_type_g_wait_activate() {
    let config = make_test_config();
    let hints = make_realistic_hints();

    // Start in launcher mode
    let mut state = AppState::initial(true, &hints, None, 0);
    assert!(
        matches!(state, AppState::FullOverlay { .. }),
        "Launcher starts in FullOverlay"
    );

    // Type 'g'
    let trans = state.handle_event(
        Event::KeyPress {
            keysym: 0x67,
            shift: false,
        },
        &config,
        &hints,
        None,
        0,
    );
    state = trans.new_state;
    assert!(
        matches!(state, AppState::PendingActivation { hint_index: 2, .. }),
        "Should match ghostty (index 2)"
    );

    // Tick after the activation delay triggers activation
    let trans = state.handle_event(Event::Tick, &config, &hints, None, 250);
    state = trans.new_state;

    match state {
        AppState::Exiting {
            result: ActivationResult::Window(idx),
        } => {
            assert_eq!(idx, 2, "Should activate ghostty");
        }
        _ => panic!("Should exit with window activation"),
    }
}

#[test]
fn test_scenario_switcher_quick_alt_tab() {
    let config = make_test_config();
    let hints = make_realistic_hints();

    // Start in switcher mode
    let state = AppState::initial(false, &hints, None, 0);
    assert!(matches!(state, AppState::BorderOnly { .. }));

    // Quick Alt release with previous window set
    let trans = state.handle_event(
        Event::AltReleased,
        &config,
        &hints,
        Some("win-firefox-def456"),
        0,
    );

    match trans.new_state {
        AppState::Exiting {
            result: ActivationResult::Window(idx),
        } => {
            assert_eq!(idx, 1, "Should switch to previous window (firefox)");
        }
        _ => panic!("Quick Alt+Tab should activate previous window"),
    }
}

#[test]
fn test_scenario_switcher_hold_and_tab() {
    let config = make_test_config();
    let hints = make_realistic_hints();

    // Start in switcher mode
    let mut state = AppState::initial(false, &hints, None, 0);

    // Tab to cycle
    let trans = state.handle_event(
        Event::KeyPress {
            keysym: KEY_TAB,
            shift: false,
        },
        &config,
        &hints,
        None,
        0,
    );
    state = trans.new_state;

    match &state {
        AppState::FullOverlay {
            selected_hint_index,
            ..
        } => {
            assert_eq!(*selected_hint_index, 1);
        }
        _ => panic!("Tab should transition to FullOverlay"),
    }

    // Tab again
    let trans = state.handle_event(
        Event::KeyPress {
            keysym: KEY_TAB,
            shift: false,
        },
        &config,
        &hints,
        None,
        0,
    );
    state = trans.new_state;

    match &state {
        AppState::FullOverlay {
            selected_hint_index,
            ..
        } => {
            assert_eq!(*selected_hint_index, 2);
        }
        _ => panic!("Second Tab should update selection"),
    }

    // Release Alt
    let trans = state.handle_event(Event::AltReleased, &config, &hints, None, 0);

    match trans.new_state {
        AppState::Exiting {
            result: ActivationResult::Window(idx),
        } => {
            assert_eq!(idx, 2, "Should activate final selection");
        }
        _ => panic!("Alt release should activate"),
    }
}

#[test]
fn test_scenario_launcher_arrow_navigate_enter() {
    let config = make_test_config();
    let hints = make_realistic_hints();

    // Start in launcher mode
    let mut state = AppState::initial(true, &hints, None, 0);

    // Navigate down twice
    let trans = state.handle_event(
        Event::KeyPress {
            keysym: KEY_DOWN,
            shift: false,
        },
        &config,
        &hints,
        None,
        0,
    );
    state = trans.new_state;

    let trans = state.handle_event(
        Event::KeyPress {
            keysym: KEY_DOWN,
            shift: false,
        },
        &config,
        &hints,
        None,
        0,
    );
    state = trans.new_state;

    // Press Enter
    let trans = state.handle_event(
        Event::KeyPress {
            keysym: KEY_RETURN,
            shift: false,
        },
        &config,
        &hints,
        None,
        0,
    );

    match trans.new_state {
        AppState::Exiting {
            result: ActivationResult::Window(idx),
        } => {
            assert_eq!(idx, 2, "Should activate third item (down, down from 0)");
        }
        _ => panic!("Enter should activate"),
    }
}

#[test]
fn test_scenario_escape_at_any_stage() {
    let config = make_test_config();
    let hints = make_realistic_hints();

    // Test escape from each state
    let mut timeout = TimeoutTracker::new(config.settings.activation_delay);
    timeout.start(0);
    let states = vec![
        AppState::initial(false, &hints, None, 0), // BorderOnly
        AppState::initial(true, &hints, None, 0),  // FullOverlay
        AppState::PendingActivation {
            hint_index: 0,
            input: "e".to_string(),
            timeout,
        },
    ];

    for state in states {
        let trans = state.handle_event(
            Event::KeyPress {
                keysym: KEY_ESCAPE,
                shift: false,
            },
            &config,
            &hints,
            None,
            0,
        );

        assert!(
            matches!(
                trans.new_state,
                AppState::Exiting {
                    result: ActivationResult::Cancelled
                }
            ),
            "Escape should cancel from any state"
        );
    }
}

#[test]
fn test_unmatched_events_leave_state_unchanged() {
    // Pairs the transition table does not name fall through to the
    // identity transition with no actions.
    let config = make_test_config();
    let hints = make_realistic_hints();

    let exiting = AppState::Exiting {
        result: ActivationResult::Cancelled,
    };
    let trans = exiting.handle_event(Event::Tick, &config, &hints, None, 1000);
    assert!(matches!(
        trans.new_state,
        AppState::Exiting {
            result: ActivationResult::Cancelled
        }
    ));
    assert!(trans.actions.is_empty());

    let overlay = AppState::FullOverlay {
        selected_hint_index: 1,
        input: "f".to_string(),
    };
    let trans = overlay.handle_event(Event::FrameCallback, &config, &hints, None, 0);
    match trans.new_state {
        AppState::FullOverlay {
            selected_hint_index,
            input,
        } => {
            assert_eq!(selected_hint_index, 1);
            assert_eq!(input, "f");
        }
        _ => panic!("FrameCallback should leave the overlay unchanged"),
    }
    assert!(trans.actions.is_empty());

    let border = AppState::BorderOnly {
        start_time: 0,
        frame_count: 1,
    };
    let trans = border.handle_event(
        Event::Configure {
            width: 800,
            height: 600,
        },
        &config,
        &hints,
        None,
        0,
    );
    assert!(matches!(trans.new_state, AppState::BorderOnly { .. }));
    assert!(trans.actions.is_empty());
}

#[test]
fn test_full_overlay_no_match_reverts_silently() {
    // An extra character with no match and no launch key reverts the
    // input without scheduling a redraw.
    let mut config = make_test_config();
    config.keys.clear();
    let hints = make_realistic_hints();
    let state = AppState::FullOverlay {
        selected_hint_index: 0,
        input: "f".to_string(),
    };

    let transition = state.handle_event(
        Event::KeyPress {
            keysym: 0x71, // 'q': no hint and no launch key
            shift: false,
        },
        &config,
        &hints,
        None,
        0,
    );

    match transition.new_state {
        AppState::FullOverlay {
            selected_hint_index,
            input,
        } => {
            assert_eq!(selected_hint_index, 0);
            assert_eq!(input, "f", "Input reverts to its previous value");
        }
        _ => panic!("No match should stay in FullOverlay"),
    }
    assert!(transition.actions.is_empty(), "Reverting emits no actions");
}

#[test]
fn test_border_only_launch_key_exits() {
    // A key with no matching window but a configured launch command
    // exits with a launch request.
    let config = make_test_config();
    let hints: Vec<WindowHint> = Vec::new();

    let state = AppState::BorderOnly {
        start_time: 0,
        frame_count: 0,
    };

    // 'm' has a default launch binding (spotify) and no window.
    let transition = state.handle_event(
        Event::KeyPress {
            keysym: 0x6d,
            shift: false,
        },
        &config,
        &hints,
        None,
        0,
    );

    match transition.new_state {
        AppState::Exiting {
            result: ActivationResult::Launch(key),
        } => {
            assert_eq!(key, "m");
        }
        _ => panic!("Launch key should exit with a launch request"),
    }
    assert!(transition.actions.contains(&Action::Exit));
}

#[test]
fn test_selected_hint_index() {
    assert_eq!(
        AppState::FullOverlay {
            selected_hint_index: 5,
            input: String::new()
        }
        .selected_hint_index(),
        5
    );
    let mut timeout = TimeoutTracker::new(200);
    timeout.start(0);
    assert_eq!(
        AppState::PendingActivation {
            hint_index: 3,
            input: "x".to_string(),
            timeout
        }
        .selected_hint_index(),
        3
    );
    assert_eq!(
        AppState::BorderOnly {
            start_time: 0,
            frame_count: 0
        }
        .selected_hint_index(),
        0
    );
}

#[test]
fn test_input_accessor() {
    assert_eq!(
        AppState::FullOverlay {
            selected_hint_index: 0,
            input: "abc".to_string()
        }
        .input(),
        "abc"
    );
    let mut timeout = TimeoutTracker::new(200);
    timeout.start(0);
    assert_eq!(
        AppState::PendingActivation {
            hint_index: 0,
            input: "xyz".to_string(),
            timeout
        }
        .input(),
        "xyz"
    );
    assert_eq!(
        AppState::BorderOnly {
            start_time: 0,
            frame_count: 0
        }
        .input(),
        ""
    );
}

#[test]
fn test_is_full_overlay() {
    assert!(
        !AppState::BorderOnly {
            start_time: 0,
            frame_count: 0
        }
        .is_full_overlay()
    );
    assert!(
        AppState::FullOverlay {
            selected_hint_index: 0,
            input: String::new()
        }
        .is_full_overlay()
    );
    let mut timeout = TimeoutTracker::new(200);
    timeout.start(0);
    assert!(
        AppState::PendingActivation {
            hint_index: 0,
            input: String::new(),
            timeout
        }
        .is_full_overlay()
    );
    assert!(
        !AppState::Exiting {
            result: ActivationResult::Cancelled
        }
        .is_full_overlay()
    );
}

#[test]
fn test_is_exiting() {
    assert!(
        !AppState::BorderOnly {
            start_time: 0,
            frame_count: 0
        }
        .is_exiting()
    );
    assert!(
        !AppState::FullOverlay {
            selected_hint_index: 0,
            input: String::new()
        }
        .is_exiting()
    );
    assert!(
        AppState::Exiting {
            result: ActivationResult::Cancelled
        }
        .is_exiting()
    );
}

#[test]
fn test_activation_result_accessor() {
    assert!(
        AppState::BorderOnly {
            start_time: 0,
            frame_count: 0
        }
        .activation_result()
        .is_none()
    );

    let state = AppState::Exiting {
        result: ActivationResult::Window(5),
    };
    match state.activation_result() {
        Some(ActivationResult::Window(idx)) => assert_eq!(*idx, 5),
        _ => panic!("Should return Window(5)"),
    }
}
