use orchestrator::action::{ClickPosition, Jitter, MacroStep};
use orchestrator::hotkey::{HotkeyError, HotkeyEvent, HotkeyId, KeyCombo, Modifier};
use orchestrator::input::{InputEvent, MouseButton};
use orchestrator::runner::{
    compute_delay, delay_with_offset, macro_step_delay_ms, macro_step_events, profile_for_event, resolve_window,
    PressAction, ProfileState, RunnerError, record_registration,
};
use orchestrator::window::{WindowHandle, WindowInfo};

fn window(handle: &str, process_name: &str, title: &str) -> WindowInfo {
    WindowInfo {
        handle: WindowHandle(handle.to_string()),
        pid: Some(1),
        process_name: Some(process_name.to_string()),
        title: title.to_string(),
    }
}

#[test]
fn compute_delay_none_jitter_is_exact_interval() {
    assert_eq!(compute_delay(100, &Jitter::Disabled), 100);
}

#[test]
fn compute_delay_uniform_jitter_stays_within_symmetric_bounds() {
    let interval_ms = 100u64;
    let range_ms = 30u64;
    for _ in 0..500 {
        let millis = compute_delay(interval_ms, &Jitter::Uniform { range_ms }) as i64;
        assert!(
            (interval_ms as i64 - range_ms as i64..=interval_ms as i64 + range_ms as i64).contains(&millis),
            "delay {millis}ms out of [{}, {}] bounds",
            interval_ms as i64 - range_ms as i64,
            interval_ms as i64 + range_ms as i64
        );
    }
}

#[test]
fn compute_delay_zero_range_jitter_is_exact_interval() {
    assert_eq!(compute_delay(100, &Jitter::Uniform { range_ms: 0 }), 100);
}

#[test]
fn resolves_single_matching_process() {
    let windows = vec![window("h1", "firefox", "Mozilla Firefox")];
    assert_eq!(resolve_window(&windows, "firefox", "", None), Some(WindowHandle("h1".to_string())));
}

#[test]
fn no_match_returns_none() {
    let windows = vec![window("h1", "firefox", "Mozilla Firefox")];
    assert_eq!(resolve_window(&windows, "chrome", "", None), None);
}

#[test]
fn multiple_matches_filtered_by_title_hint() {
    let windows = vec![window("h1", "code", "project-a - VS Code"), window("h2", "code", "project-b - VS Code")];
    assert_eq!(resolve_window(&windows, "code", "project-b", None), Some(WindowHandle("h2".to_string())));
}

#[test]
fn prefers_stored_backend_hint_id_among_matches() {
    let windows = vec![window("h1", "code", "a - VS Code"), window("h2", "code", "b - VS Code")];
    assert_eq!(resolve_window(&windows, "code", "", Some("h2")), Some(WindowHandle("h2".to_string())));
}

#[test]
fn falls_back_to_first_match_when_backend_hint_id_not_present() {
    let windows = vec![window("h1", "code", "a - VS Code"), window("h2", "code", "b - VS Code")];
    assert_eq!(
        resolve_window(&windows, "code", "", Some("stale-id-not-in-list")),
        Some(WindowHandle("h1".to_string()))
    );
}

#[test]
fn title_hint_applied_even_with_a_single_process_match() {
    let windows = vec![window("h1", "code", "project-a - VS Code")];
    assert_eq!(resolve_window(&windows, "code", "project-a", None), Some(WindowHandle("h1".to_string())));
}

#[test]
fn title_hint_matching_nothing_returns_none_even_with_a_single_process_match() {
    let windows = vec![window("h1", "code", "project-a - VS Code")];
    assert_eq!(
        resolve_window(&windows, "code", "project-z", None),
        None,
        "a non-matching hint must fail cleanly, not silently fall back to the unfiltered match"
    );
}

#[test]
fn title_hint_matching_nothing_among_multiple_matches_returns_none() {
    let windows = vec![window("h1", "code", "project-a - VS Code"), window("h2", "code", "project-b - VS Code")];
    assert_eq!(
        resolve_window(&windows, "code", "project-z", None),
        None,
        "a hint matching none of several process-name matches must not silently fall back to the first one"
    );
}

// -- further cases ---------------------------------------------------------

#[test]
fn backend_hint_id_outside_the_title_filtered_candidates_is_not_preferred() {
    let windows = vec![window("h1", "code", "project-a - VS Code"), window("h2", "code", "project-b - VS Code")];
    assert_eq!(resolve_window(&windows, "code", "project-a", Some("h2")), Some(WindowHandle("h1".to_string())));
}

#[test]
fn windows_without_a_process_name_never_match() {
    let mut w = window("h1", "code", "x");
    w.process_name = None;
    assert_eq!(resolve_window(&[w], "code", "", None), None);
}

#[test]
fn delay_is_interval_plus_offset_clamped_at_zero() {
    assert_eq!(delay_with_offset(100, -30), 70);
    assert_eq!(delay_with_offset(100, 30), 130);
    assert_eq!(delay_with_offset(10, -30), 0);
}

#[test]
fn macro_steps_expand_to_their_events() {
    let combo = KeyCombo { modifiers: vec![Modifier::Ctrl], key: "C".to_string() };
    let step = MacroStep::KeyPress { combo: combo.clone(), delay_ms: 50 };
    assert_eq!(macro_step_delay_ms(&step), 50);
    assert_eq!(macro_step_events(&step), vec![InputEvent::KeyPress(combo.clone()), InputEvent::KeyRelease(combo)]);

    let click = MacroStep::MouseClick { delay_ms: 5, button: MouseButton::Right, position: ClickPosition::Fixed { x: 3, y: 4 } };
    assert_eq!(
        macro_step_events(&click),
        vec![
            InputEvent::MouseMoveAbsolute { x: 3, y: 4 },
            InputEvent::MouseButtonPress(MouseButton::Right),
            InputEvent::MouseButtonRelease(MouseButton::Right),
        ]
    );
}

#[test]
fn mouse_click_at_cursor_skips_the_move_event() {
    let click = MacroStep::MouseClick { delay_ms: 5, button: MouseButton::Left, position: ClickPosition::AtCursor };
    assert_eq!(
        macro_step_events(&click),
        vec![InputEvent::MouseButtonPress(MouseButton::Left), InputEvent::MouseButtonRelease(MouseButton::Left)]
    );
}

#[test]
fn drag_presses_left_between_the_two_positions() {
    let drag = MacroStep::Drag { delay_ms: 1, from: ClickPosition::AtCursor, to: ClickPosition::Fixed { x: 9, y: 8 } };
    assert_eq!(
        macro_step_events(&drag),
        vec![
            InputEvent::MouseButtonPress(MouseButton::Left),
            InputEvent::MouseMoveAbsolute { x: 9, y: 8 },
            InputEvent::MouseButtonRelease(MouseButton::Left),
        ]
    );
    let scroll = MacroStep::Scroll { delay_ms: 2, dx: -1, dy: 4 };
    assert_eq!(macro_step_delay_ms(&scroll), 2);
    assert_eq!(macro_step_events(&scroll), vec![InputEvent::Scroll { dx: -1, dy: 4 }]);
}

#[test]
fn only_presses_of_registered_ids_reach_a_profile() {
    let registered = vec![HotkeyId(1), HotkeyId(2)];
    assert_eq!(profile_for_event(&registered, HotkeyId(2), HotkeyEvent::Pressed), Some(1));
    assert_eq!(profile_for_event(&registered, HotkeyId(2), HotkeyEvent::Released), None);
    assert_eq!(profile_for_event(&registered, HotkeyId(7), HotkeyEvent::Pressed), None);
}

#[test]
fn pressing_hotkey_twice_toggles_off_and_restores_focus() {
    let mut state = ProfileState::new();
    assert!(matches!(state.on_press(50, 1_000_000, false), PressAction::Start { restore_first: None }));
    state.mark_started(Some(WindowHandle("prior".to_string())), 1_000_000);
    match state.on_press(50, 2_000_000, false) {
        PressAction::Stop { restore } => assert_eq!(restore, Some(WindowHandle("prior".to_string()))),
        other => panic!("expected a stop, got {other:?}"),
    }
    assert!(!state.is_running());
    assert_eq!(state.prior_focus(), None);
    assert_eq!(state.last_toggle_at(), Some(2_000_000));
}

#[test]
fn second_press_within_debounce_window_is_ignored() {
    let mut state = ProfileState::new();
    assert!(matches!(state.on_press(400, 1_000_000, false), PressAction::Start { .. }));
    state.mark_started(None, 1_000_000);
    assert!(matches!(state.on_press(400, 1_200_000, false), PressAction::Ignore));
    assert!(state.is_running());
    assert!(matches!(state.on_press(400, 1_399_999, false), PressAction::Ignore));
    assert!(matches!(state.on_press(400, 1_400_000, false), PressAction::Stop { restore: None }));
}

#[test]
fn toggle_on_fails_cleanly_when_no_window_matches() {
    // The press is answered with a start, but the scope cannot be resolved,
    // so the start is never recorded: the profile stays stopped and the
    // failed attempt opens no debounce window.
    let mut state = ProfileState::new();
    assert!(matches!(state.on_press(400, 1_000_000, false), PressAction::Start { .. }));
    assert!(!state.is_running());
    assert_eq!(state.last_toggle_at(), None);
    assert!(matches!(state.on_press(400, 1_000_100, false), PressAction::Start { .. }));
    state.mark_started(None, 1_000_100);
    assert_eq!(state.last_toggle_at(), Some(1_000_100));
    assert!(matches!(state.on_press(400, 1_000_200, false), PressAction::Ignore));
}

#[test]
fn self_completing_macro_restarts_after_restoring_focus() {
    let mut state = ProfileState::new();
    state.on_press(10, 0, false);
    state.mark_started(Some(WindowHandle("before".to_string())), 0);
    match state.on_press(10, 100_000, true) {
        PressAction::Start { restore_first } => assert_eq!(restore_first, Some(WindowHandle("before".to_string()))),
        other => panic!("expected a restart, got {other:?}"),
    }
    assert!(!state.is_running());
    assert_eq!(state.last_toggle_at(), Some(0));
}

#[test]
fn shutdown_hands_back_the_focus_to_restore() {
    let mut state = ProfileState::new();
    state.on_press(10, 0, false);
    state.mark_started(Some(WindowHandle("w".to_string())), 0);
    assert_eq!(state.on_shutdown(), Some(WindowHandle("w".to_string())));
    assert!(!state.is_running());
    assert_eq!(state.on_shutdown(), None);
}

#[test]
fn hotkey_registration_failure_at_startup_is_fatal() {
    let mut registered = Vec::new();
    record_registration(&mut registered, &"a".to_string(), Ok((HotkeyId(1), KeyCombo { modifiers: vec![], key: "F9".to_string() })))
        .unwrap();
    assert_eq!(registered, vec![HotkeyId(1)]);
    match record_registration(&mut registered, &"b".to_string(), Err(HotkeyError::RegistrationFailed("x".to_string()))) {
        Err(RunnerError::HotkeyRegistration { profile_name, .. }) => assert_eq!(profile_name, "b"),
        other => panic!("expected a registration failure, got {other:?}"),
    }
    assert_eq!(registered, vec![HotkeyId(1)]);
}

#[test]
fn runner_error_message_names_the_profile() {
    let e = RunnerError::HotkeyRegistration {
        profile_name: "p".to_string(),
        source: HotkeyError::BackendUnavailable("gone".to_string()),
    };
    assert_eq!(e.message(), "failed to register hotkey for profile \"p\": hotkey backend unavailable: gone");
}

#[test]
fn uniform_jitter_actually_varies_the_delay() {
    let delays: std::collections::BTreeSet<u64> =
        (0..500).map(|_| compute_delay(1_000, &Jitter::Uniform { range_ms: 400 })).collect();
    assert!(delays.len() > 10, "500 jittered delays should not collapse onto a few values: {delays:?}");
    assert!(delays.iter().all(|d| (600..=1_400).contains(d)));
}
