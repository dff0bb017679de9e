use orchestrator::action::{ClickPosition, MacroStep};
use orchestrator::hotkey::{KeyCombo, Modifier};
use orchestrator::input::{InputEvent, MouseButton};
use orchestrator::notation::{parse_combo, parse_macro_step, parse_repeat_input, NotationError};

#[test]
fn parse_combo_plain_key() {
    let combo = parse_combo("A").unwrap();
    assert_eq!(combo, KeyCombo { modifiers: vec![], key: "A".to_string() });
}

#[test]
fn parse_combo_single_modifier() {
    let combo = parse_combo("Ctrl+C").unwrap();
    assert_eq!(combo, KeyCombo { modifiers: vec![Modifier::Ctrl], key: "C".to_string() });
}

#[test]
fn parse_combo_multiple_modifiers_case_insensitive() {
    let combo = parse_combo("ctrl+ALT+F5").unwrap();
    assert_eq!(
        combo,
        KeyCombo { modifiers: vec![Modifier::Ctrl, Modifier::Alt], key: "F5".to_string() }
    );
}

#[test]
fn parse_combo_meta_aliases() {
    for alias in ["Meta", "Super", "Win"] {
        let combo = parse_combo(&format!("{alias}+F9")).unwrap();
        assert_eq!(combo.modifiers, vec![Modifier::Meta], "alias {alias} should map to Modifier::Meta");
    }
}

#[test]
fn parse_combo_empty_string_is_an_error() {
    assert!(parse_combo("").is_err());
}

#[test]
fn parse_combo_trailing_plus_is_an_error() {
    assert!(parse_combo("Ctrl+").is_err());
}

#[test]
fn macro_step_key() {
    let step = parse_macro_step("key:Ctrl+Alt+F5:50").unwrap();
    assert_eq!(
        step,
        MacroStep::KeyPress {
            combo: KeyCombo { modifiers: vec![Modifier::Ctrl, Modifier::Alt], key: "F5".to_string() },
            delay_ms: 50,
        }
    );
}

#[test]
fn macro_step_key_wrong_field_count() {
    assert!(matches!(parse_macro_step("key:Ctrl+C"), Err(NotationError::WrongFieldCount { .. })));
}

#[test]
fn macro_step_click_fixed_position() {
    let step = parse_macro_step("click:left:100,200:30").unwrap();
    assert_eq!(
        step,
        MacroStep::MouseClick {
            delay_ms: 30,
            button: MouseButton::Left,
            position: ClickPosition::Fixed { x: 100, y: 200 },
        }
    );
}

#[test]
fn macro_step_click_at_cursor() {
    let step = parse_macro_step("click:right:cursor:10").unwrap();
    assert_eq!(
        step,
        MacroStep::MouseClick { delay_ms: 10, button: MouseButton::Right, position: ClickPosition::AtCursor }
    );
}

#[test]
fn macro_step_click_invalid_button() {
    assert!(matches!(parse_macro_step("click:nope:cursor:10"), Err(NotationError::InvalidButton(_))));
}

#[test]
fn macro_step_click_invalid_coordinates() {
    assert!(matches!(
        parse_macro_step("click:left:not-a-position:10"),
        Err(NotationError::InvalidCoordinates(_))
    ));
}

#[test]
fn macro_step_drag_mixed_positions() {
    let step = parse_macro_step("drag:cursor:300,400:50").unwrap();
    assert_eq!(
        step,
        MacroStep::Drag { delay_ms: 50, from: ClickPosition::AtCursor, to: ClickPosition::Fixed { x: 300, y: 400 } }
    );
}

#[test]
fn macro_step_scroll() {
    let step = parse_macro_step("scroll:0,-3:20").unwrap();
    assert_eq!(step, MacroStep::Scroll { delay_ms: 20, dx: 0, dy: -3 });
}

#[test]
fn macro_step_unknown_kind() {
    assert!(matches!(parse_macro_step("teleport:1,2:5"), Err(NotationError::UnknownStepKind(_))));
}

#[test]
fn repeat_input_key() {
    let event = parse_repeat_input("key:W").unwrap();
    assert_eq!(event, InputEvent::KeyPress(KeyCombo { modifiers: vec![], key: "W".to_string() }));
}

#[test]
fn repeat_input_scroll() {
    let event = parse_repeat_input("scroll:0,1").unwrap();
    assert_eq!(event, InputEvent::Scroll { dx: 0, dy: 1 });
}

#[test]
fn repeat_input_click_is_rejected() {
    let err = parse_repeat_input("click:left:cursor").unwrap_err();
    assert!(matches!(err, NotationError::NotAllowedInRepeatMode(_)));
}

#[test]
fn repeat_input_drag_is_rejected() {
    let err = parse_repeat_input("drag:cursor:100,100").unwrap_err();
    assert!(matches!(err, NotationError::NotAllowedInRepeatMode(_)));
}

// -- further cases ---------------------------------------------------------

#[test]
fn parse_combo_unknown_modifier_is_an_error() {
    assert_eq!(
        parse_combo("Hyper+A").unwrap_err(),
        NotationError::UnrecognizedModifierOrEmptyKey("Hyper+A".to_string())
    );
}

#[test]
fn macro_step_wrong_field_count_reports_expected_and_got() {
    assert_eq!(
        parse_macro_step("scroll:1,2").unwrap_err(),
        NotationError::WrongFieldCount { kind: "scroll".to_string(), expected: 3, got: 2 }
    );
}

#[test]
fn macro_step_invalid_delay_is_reported() {
    assert!(matches!(parse_macro_step("scroll:1,2:soon"), Err(NotationError::InvalidDelay(_))));
}

#[test]
fn macro_step_negative_fixed_position_is_accepted() {
    let step = parse_macro_step("click:middle:-5,7:0").unwrap();
    assert_eq!(
        step,
        MacroStep::MouseClick { delay_ms: 0, button: MouseButton::Middle, position: ClickPosition::Fixed { x: -5, y: 7 } }
    );
}

#[test]
fn notation_error_messages_name_the_offending_text() {
    let err = parse_macro_step("teleport:1,2:5").unwrap_err();
    assert!(err.message().contains("teleport"));
    let err = parse_repeat_input("click:left:cursor").unwrap_err();
    assert!(!err.message().is_empty());
}

#[test]
fn repeat_notation_reads_like_the_macro_step_with_zero_delay() {
    assert_eq!(
        parse_repeat_input("key:Ctrl+A").unwrap(),
        InputEvent::KeyPress(KeyCombo { modifiers: vec![Modifier::Ctrl], key: "A".to_string() })
    );
    assert_eq!(
        parse_macro_step("key:Ctrl+A:0").unwrap(),
        MacroStep::KeyPress { combo: KeyCombo { modifiers: vec![Modifier::Ctrl], key: "A".to_string() }, delay_ms: 0 }
    );
    assert_eq!(parse_repeat_input("scroll:x,1").unwrap_err(), parse_macro_step("scroll:x,1:0").unwrap_err());
}
