use orchestrator::cli::{
    add_command, build_action_args, config_or_default, edit_command, edit_needs_action_flag,
    is_first_run_missing_file, remove_command, ActionArg, CommandError,
};
use orchestrator::config::{Config, ConfigError, CURRENT_SCHEMA_VERSION};
use orchestrator::io_failure::{IoErrorKind, IoFailure};
use orchestrator::profile::Scope;
use orchestrator::profile_commands::{ProfileActionArgs, ProfileAddArgs, ProfileCommandError, ProfileEditArgs};

fn not_found() -> ConfigError {
    ConfigError::Io(IoFailure { kind: IoErrorKind::NotFound, message: "No such file or directory (os error 2)".to_string() })
}

#[test]
fn first_run_missing_file_is_recognized() {
    // What loading `/definitely/does/not/exist/config.json` fails with.
    let err = not_found();
    assert!(
        is_first_run_missing_file(&err),
        "a missing config file must be treated as a first run, not a hard error"
    );
}

#[test]
fn unparseable_file_is_not_first_run_missing_file() {
    let err = ConfigError::Serde("expected ident at line 1 column 2".to_string());
    assert!(!is_first_run_missing_file(&err));
}

#[test]
fn invalid_config_on_disk_is_not_first_run_missing_file() {
    let err = ConfigError::InvalidInterval { profile: "bad".to_string() };
    assert!(!is_first_run_missing_file(&err));
}

#[test]
fn no_action_and_no_detail_flags_is_fine() {
    assert!(!edit_needs_action_flag(false, &None, &None, &None, &[], false));
}

#[test]
fn action_given_is_always_fine_regardless_of_detail_flags() {
    assert!(!edit_needs_action_flag(
        true,
        &Some("key:A".to_string()),
        &Some(100),
        &Some(10),
        &["key:A:10".to_string()],
        true
    ));
}

#[test]
fn interval_ms_without_action_is_rejected() {
    assert!(edit_needs_action_flag(false, &None, &Some(999), &None, &[], false));
}

#[test]
fn input_without_action_is_rejected() {
    assert!(edit_needs_action_flag(false, &Some("key:A".to_string()), &None, &None, &[], false));
}

#[test]
fn jitter_ms_without_action_is_rejected() {
    assert!(edit_needs_action_flag(false, &None, &None, &Some(10), &[], false));
}

#[test]
fn step_without_action_is_rejected() {
    assert!(edit_needs_action_flag(false, &None, &None, &None, &["key:A:10".to_string()], false));
}

#[test]
fn loop_without_action_is_rejected() {
    assert!(edit_needs_action_flag(false, &None, &None, &None, &[], true));
}

#[test]
fn repeat_with_required_fields_is_ok() {
    let result = build_action_args(ActionArg::Repeat, Some("key:A".to_string()), Some(100), None, vec![], false);
    assert!(matches!(result, Ok(ProfileActionArgs::Repeat { .. })));
}

#[test]
fn repeat_missing_input_errors() {
    let result = build_action_args(ActionArg::Repeat, None, Some(100), None, vec![], false);
    assert_eq!(result.unwrap_err(), ProfileCommandError::MissingRequiredField("input"));
}

#[test]
fn repeat_missing_interval_ms_errors() {
    let result = build_action_args(ActionArg::Repeat, Some("key:A".to_string()), None, None, vec![], false);
    assert_eq!(result.unwrap_err(), ProfileCommandError::MissingRequiredField("interval-ms"));
}

#[test]
fn macro_with_steps_is_ok() {
    let result = build_action_args(ActionArg::Macro, None, None, None, vec!["key:A:10".to_string()], true);
    assert!(matches!(result, Ok(ProfileActionArgs::Macro { .. })));
}

#[test]
fn macro_missing_steps_errors() {
    let result = build_action_args(ActionArg::Macro, None, None, None, vec![], false);
    assert_eq!(result.unwrap_err(), ProfileCommandError::MissingRequiredField("step"));
}

#[test]
fn repeat_with_macro_step_conflicts() {
    let result = build_action_args(
        ActionArg::Repeat,
        Some("key:A".to_string()),
        Some(100),
        None,
        vec!["key:A:10".to_string()],
        false,
    );
    assert_eq!(result.unwrap_err(), ProfileCommandError::RepeatAndMacroBothOrNeitherSpecified);
}

#[test]
fn repeat_with_loop_flag_conflicts() {
    let result = build_action_args(ActionArg::Repeat, Some("key:A".to_string()), Some(100), None, vec![], true);
    assert_eq!(result.unwrap_err(), ProfileCommandError::RepeatAndMacroBothOrNeitherSpecified);
}

#[test]
fn macro_with_repeat_fields_conflicts() {
    let result = build_action_args(
        ActionArg::Macro,
        Some("key:A".to_string()),
        None,
        None,
        vec!["key:A:10".to_string()],
        false,
    );
    assert_eq!(result.unwrap_err(), ProfileCommandError::RepeatAndMacroBothOrNeitherSpecified);
}

#[test]
fn macro_with_jitter_ms_conflicts() {
    let result = build_action_args(ActionArg::Macro, None, None, Some(10), vec!["key:A:10".to_string()], false);
    assert_eq!(result.unwrap_err(), ProfileCommandError::RepeatAndMacroBothOrNeitherSpecified);
}

// -- further cases ---------------------------------------------------------

#[test]
fn repeat_fields_are_carried_over_verbatim() {
    match build_action_args(ActionArg::Repeat, Some("scroll:0,1".to_string()), Some(250), Some(15), vec![], false) {
        Ok(ProfileActionArgs::Repeat { input, interval_ms, jitter_ms }) => {
            assert_eq!(input, "scroll:0,1");
            assert_eq!(interval_ms, 250);
            assert_eq!(jitter_ms, Some(15));
        },
        other => panic!("expected a repeat action, got {other:?}"),
    }
}

#[test]
fn first_run_yields_an_empty_current_config() {
    let config = config_or_default(Err(not_found())).unwrap();
    assert_eq!(config, Config { schema_version: CURRENT_SCHEMA_VERSION, profiles: vec![] });
}

#[test]
fn other_load_failures_are_passed_through() {
    match config_or_default(Err(ConfigError::UnsupportedSchemaVersion(2))) {
        Err(ConfigError::UnsupportedSchemaVersion(2)) => {},
        other => panic!("expected the load failure back, got {other:?}"),
    }
    let io = ConfigError::Io(IoFailure { kind: IoErrorKind::Other, message: "permission denied".to_string() });
    assert!(config_or_default(Err(io)).is_err());
}

#[test]
fn loaded_config_is_used_as_is() {
    let loaded = Config { schema_version: CURRENT_SCHEMA_VERSION, profiles: vec![] };
    assert_eq!(config_or_default(Ok(loaded)).unwrap().schema_version, CURRENT_SCHEMA_VERSION);
}

fn repeat(name: &str, interval_ms: u64) -> ProfileAddArgs {
    ProfileAddArgs {
        name: name.to_string(),
        scope: Scope::Desktop,
        action: ProfileActionArgs::Repeat { input: "key:A".to_string(), interval_ms, jitter_ms: None },
        debounce_ms: None,
    }
}

#[test]
fn invalid_add_is_not_cleared_for_saving() {
    let mut config = Config { schema_version: CURRENT_SCHEMA_VERSION, profiles: vec![] };
    add_command(&mut config, repeat("good", 100)).unwrap();
    match add_command(&mut config, repeat("zero", 0)) {
        Err(CommandError::Invalid(ConfigError::InvalidInterval { profile })) => assert_eq!(profile, "zero"),
        other => panic!("expected a validation failure, got {other:?}"),
    }
}

#[test]
fn invalid_edit_is_not_cleared_for_saving() {
    let mut config = Config { schema_version: CURRENT_SCHEMA_VERSION, profiles: vec![] };
    add_command(&mut config, repeat("target", 100)).unwrap();
    let result = edit_command(
        &mut config,
        "target",
        ProfileEditArgs {
            scope: None,
            action: Some(ProfileActionArgs::Repeat { input: "key:A".to_string(), interval_ms: 100, jitter_ms: Some(500) }),
            debounce_ms: None,
        },
    );
    assert!(matches!(result, Err(CommandError::Invalid(ConfigError::JitterRangeExceedsInterval { .. }))));
    let refused = edit_command(&mut config, "missing", ProfileEditArgs { scope: None, action: None, debounce_ms: None });
    assert!(matches!(refused, Err(CommandError::Command(_))));
}

#[test]
fn remove_command_clears_a_valid_config_for_saving() {
    let mut config = Config { schema_version: CURRENT_SCHEMA_VERSION, profiles: vec![] };
    add_command(&mut config, repeat("a", 100)).unwrap();
    add_command(&mut config, repeat("b", 100)).unwrap();
    remove_command(&mut config, "a").unwrap();
    assert_eq!(config.profiles.len(), 1);
    assert_eq!(config.profiles[0].name, "b");
    let err = remove_command(&mut config, "a").unwrap_err();
    assert_eq!(err.message(), "no profile named \"a\"");
}
