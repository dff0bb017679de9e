use orchestrator::config::{Config, ConfigError, CURRENT_SCHEMA_VERSION};
use orchestrator::profile::Scope;
use orchestrator::profile_commands::{
    add_profile, edit_profile, format_profile_list, remove_profile, resolve_window_scope, ProfileActionArgs,
    ProfileAddArgs, ProfileCommandError, ProfileEditArgs,
};
use orchestrator::profile_ops::ProfileOpError;

fn empty_config() -> Config {
    Config { schema_version: CURRENT_SCHEMA_VERSION, profiles: vec![] }
}

fn repeat_args(name: &str, input: &str, interval_ms: u64, jitter_ms: Option<u64>, debounce_ms: Option<u32>) -> ProfileAddArgs {
    ProfileAddArgs {
        name: name.to_string(),
        scope: Scope::Desktop,
        action: ProfileActionArgs::Repeat { input: input.to_string(), interval_ms, jitter_ms },
        debounce_ms,
    }
}

#[test]
fn add_profile_rejects_click_in_repeat_mode() {
    let mut config = empty_config();
    let args = repeat_args("bad", "click:left:cursor", 100, None, None);
    let err = add_profile(&mut config, args).unwrap_err();
    assert!(matches!(err, ProfileCommandError::Notation(_)));
}

#[test]
fn add_profile_wraps_duplicate_name_as_op_error() {
    let mut config = empty_config();
    add_profile(&mut config, repeat_args("dup", "key:A", 100, None, None)).unwrap();
    let err = add_profile(&mut config, repeat_args("dup", "key:A", 100, None, None)).unwrap_err();
    assert_eq!(err, ProfileCommandError::Op(ProfileOpError::DuplicateProfileName("dup".to_string())));
}

#[test]
fn edit_profile_wraps_unknown_name_as_op_error() {
    let mut config = empty_config();
    let err = edit_profile(&mut config, "nope", ProfileEditArgs { scope: None, action: None, debounce_ms: None })
        .unwrap_err();
    assert_eq!(err, ProfileCommandError::Op(ProfileOpError::NoSuchProfile("nope".to_string())));
}

#[test]
fn remove_profile_wraps_unknown_name_as_op_error() {
    let mut config = empty_config();
    let err = remove_profile(&mut config, "nope").unwrap_err();
    assert_eq!(err, ProfileCommandError::Op(ProfileOpError::NoSuchProfile("nope".to_string())));
}

#[test]
fn resolve_window_scope_wraps_empty_window_list_as_op_error() {
    let err = resolve_window_scope(&[], 0).unwrap_err();
    assert_eq!(err, ProfileCommandError::Op(ProfileOpError::NoWindowsAvailable));
}

#[test]
fn add_profile_alone_does_not_reject_zero_interval() {
    let mut config = empty_config();
    assert!(add_profile(&mut config, repeat_args("zero-interval", "key:A", 0, None, None)).is_ok());
    assert_eq!(config.profiles[0].debounce_ms, 400);
    let err = config.validate().unwrap_err();
    assert!(matches!(err, ConfigError::InvalidInterval { .. }));
}

#[test]
fn add_profile_alone_does_not_reject_jitter_exceeding_interval() {
    let mut config = empty_config();
    assert!(add_profile(&mut config, repeat_args("bad-jitter", "key:A", 100, Some(999), None)).is_ok());
    let err = config.validate().unwrap_err();
    assert!(matches!(err, ConfigError::JitterRangeExceedsInterval { .. }));
}

#[test]
fn edit_profile_alone_does_not_reject_zero_interval() {
    let mut config = empty_config();
    add_profile(&mut config, repeat_args("target", "key:A", 100, None, None)).unwrap();
    assert!(config.validate().is_ok());
    let result = edit_profile(
        &mut config,
        "target",
        ProfileEditArgs {
            scope: None,
            action: Some(ProfileActionArgs::Repeat { input: "key:A".to_string(), interval_ms: 0, jitter_ms: None }),
            debounce_ms: None,
        },
    );
    assert!(result.is_ok());
    let err = config.validate().unwrap_err();
    assert!(matches!(err, ConfigError::InvalidInterval { .. }));
}

#[test]
fn edit_profile_is_atomic_when_action_notation_fails() {
    let mut config = empty_config();
    add_profile(&mut config, repeat_args("target", "key:A", 100, None, Some(400))).unwrap();
    let original_action = config.profiles[0].action.clone();
    let err = edit_profile(
        &mut config,
        "target",
        ProfileEditArgs {
            scope: Some(Scope::Window {
                process_name: "firefox".to_string(),
                window_title_hint: "Mozilla Firefox".to_string(),
                backend_hint_id: None,
            }),
            action: Some(ProfileActionArgs::Repeat {
                input: "click:left:cursor".to_string(),
                interval_ms: 100,
                jitter_ms: None,
            }),
            debounce_ms: None,
        },
    )
    .unwrap_err();
    assert!(matches!(err, ProfileCommandError::Notation(_)));
    let profile = &config.profiles[0];
    assert_eq!(profile.scope, Scope::Desktop, "scope must be unchanged when the edit as a whole fails");
    assert!(!profile.focus_steal, "focus_steal must be unchanged when the edit as a whole fails");
    assert_eq!(profile.action, original_action, "action must be unchanged when the edit as a whole fails");
}

#[test]
fn format_profile_list_repeat_with_jitter_matches_full_expected_line() {
    let mut config = empty_config();
    add_profile(&mut config, repeat_args("p1", "key:A", 100, Some(20), None)).unwrap();
    assert_eq!(format_profile_list(&config), "p1\tDesktop\tRepeat every 100ms\u{00b1}20ms\tdebounce=400ms\n");
}

#[test]
fn format_profile_list_repeat_without_jitter_shows_no_jitter_suffix() {
    let mut config = empty_config();
    add_profile(&mut config, repeat_args("p2", "key:A", 100, None, None)).unwrap();
    assert_eq!(format_profile_list(&config), "p2\tDesktop\tRepeat every 100ms\u{00b1}no jitter\tdebounce=400ms\n");
}

#[test]
fn format_profile_list_window_scope_matches_full_expected_line() {
    let mut config = empty_config();
    add_profile(
        &mut config,
        ProfileAddArgs {
            name: "p3".to_string(),
            scope: Scope::Window {
                process_name: "firefox".to_string(),
                window_title_hint: "Mozilla Firefox".to_string(),
                backend_hint_id: Some("h1".to_string()),
            },
            action: ProfileActionArgs::Repeat { input: "key:A".to_string(), interval_ms: 50, jitter_ms: None },
            debounce_ms: Some(250),
        },
    )
    .unwrap();
    assert_eq!(
        format_profile_list(&config),
        "p3\tWindow(firefox)\tRepeat every 50ms\u{00b1}no jitter\tdebounce=250ms\n"
    );
}

#[test]
fn format_profile_list_macro_matches_full_expected_line() {
    let mut config = empty_config();
    add_profile(
        &mut config,
        ProfileAddArgs {
            name: "p4".to_string(),
            scope: Scope::Desktop,
            action: ProfileActionArgs::Macro {
                steps: vec!["scroll:0,1:20".to_string(), "key:Ctrl+C:50".to_string()],
                loop_: true,
            },
            debounce_ms: None,
        },
    )
    .unwrap();
    assert_eq!(format_profile_list(&config), "p4\tDesktop\tMacro (2 steps, looping)\tdebounce=400ms\n");
}

#[test]
fn format_profile_list_macro_once_matches_full_expected_line() {
    let mut config = empty_config();
    add_profile(
        &mut config,
        ProfileAddArgs {
            name: "p5".to_string(),
            scope: Scope::Desktop,
            action: ProfileActionArgs::Macro { steps: vec!["scroll:0,1:20".to_string()], loop_: false },
            debounce_ms: None,
        },
    )
    .unwrap();
    assert_eq!(format_profile_list(&config), "p5\tDesktop\tMacro (1 steps, once)\tdebounce=400ms\n");
}

// -- further cases ---------------------------------------------------------

#[test]
fn format_profile_list_lists_every_profile_in_order() {
    let mut config = empty_config();
    add_profile(&mut config, repeat_args("first", "key:A", 10, None, None)).unwrap();
    add_profile(&mut config, repeat_args("second", "scroll:0,1", 20, Some(5), Some(7))).unwrap();
    assert_eq!(
        format_profile_list(&config),
        "first\tDesktop\tRepeat every 10ms\u{00b1}no jitter\tdebounce=400ms\n\
         second\tDesktop\tRepeat every 20ms\u{00b1}5ms\tdebounce=7ms\n"
    );
    assert_eq!(format_profile_list(&empty_config()), "");
}

#[test]
fn add_profile_rejects_bad_macro_step_and_leaves_config_untouched() {
    let mut config = empty_config();
    let err = add_profile(
        &mut config,
        ProfileAddArgs {
            name: "m".to_string(),
            scope: Scope::Desktop,
            action: ProfileActionArgs::Macro {
                steps: vec!["scroll:0,1:20".to_string(), "teleport:1,2:5".to_string()],
                loop_: false,
            },
            debounce_ms: None,
        },
    )
    .unwrap_err();
    assert_eq!(
        err,
        ProfileCommandError::Notation("unknown step kind \"teleport\" (expected key/click/drag/scroll)".to_string())
    );
    assert!(config.profiles.is_empty());
}

#[test]
fn profile_command_error_messages() {
    assert_eq!(ProfileCommandError::MissingRequiredField("step").message(), "--step is required");
    assert_eq!(
        ProfileCommandError::Op(ProfileOpError::NoSuchProfile("x".to_string())).message(),
        ProfileOpError::NoSuchProfile("x".to_string()).message()
    );
    assert!(ProfileCommandError::RepeatAndMacroBothOrNeitherSpecified.message().starts_with("--action repeat's fields"));
}
