use orchestrator::action::{Action, Jitter, MacroStep};
use orchestrator::config::{migrate, Config, ConfigError, CURRENT_SCHEMA_VERSION};
use orchestrator::hotkey::{KeyCombo, Modifier};
use orchestrator::input::InputEvent;
use orchestrator::io_failure::{IoErrorKind, IoFailure};
use orchestrator::profile::{Profile, Scope};

fn desktop_repeat_profile(name: &str) -> Profile {
    Profile {
        name: name.to_string(),
        trigger: KeyCombo { modifiers: vec![Modifier::Ctrl], key: "F9".to_string() },
        action: Action::Repeat { input: InputEvent::Scroll { dx: 0, dy: 1 }, interval_ms: 100, jitter: Jitter::Disabled },
        scope: Scope::Desktop,
        focus_steal: false,
        debounce_ms: 400,
    }
}

#[test]
fn validate_passes_for_valid_config() {
    let config = Config {
        schema_version: CURRENT_SCHEMA_VERSION,
        profiles: vec![desktop_repeat_profile("a"), desktop_repeat_profile("b")],
    };
    assert!(config.validate().is_ok());
}

#[test]
fn validate_rejects_duplicate_profile_names() {
    let config = Config {
        schema_version: CURRENT_SCHEMA_VERSION,
        profiles: vec![desktop_repeat_profile("dup"), desktop_repeat_profile("dup")],
    };
    let err = config.validate().unwrap_err();
    assert!(matches!(err, ConfigError::DuplicateProfileName(name) if name == "dup"));
}

#[test]
fn validate_rejects_zero_interval() {
    let mut profile = desktop_repeat_profile("zero-interval");
    profile.action = Action::Repeat { input: InputEvent::Scroll { dx: 0, dy: 1 }, interval_ms: 0, jitter: Jitter::Disabled };
    let config = Config { schema_version: CURRENT_SCHEMA_VERSION, profiles: vec![profile] };
    let err = config.validate().unwrap_err();
    assert!(matches!(err, ConfigError::InvalidInterval { profile } if profile == "zero-interval"));
}

#[test]
fn validate_rejects_jitter_range_exceeding_interval() {
    let mut profile = desktop_repeat_profile("bad-jitter");
    profile.action = Action::Repeat {
        input: InputEvent::Scroll { dx: 0, dy: 1 },
        interval_ms: 100,
        jitter: Jitter::Uniform { range_ms: 200 },
    };
    let config = Config { schema_version: CURRENT_SCHEMA_VERSION, profiles: vec![profile] };
    let err = config.validate().unwrap_err();
    assert!(matches!(err, ConfigError::JitterRangeExceedsInterval { profile } if profile == "bad-jitter"));
}

#[test]
fn validate_rejects_empty_window_process_name() {
    let mut profile = desktop_repeat_profile("empty-process");
    profile.scope = Scope::Window {
        process_name: String::new(),
        window_title_hint: "Some Window".to_string(),
        backend_hint_id: None,
    };
    let config = Config { schema_version: CURRENT_SCHEMA_VERSION, profiles: vec![profile] };
    let err = config.validate().unwrap_err();
    assert!(matches!(err, ConfigError::EmptyWindowProcessName { profile } if profile == "empty-process"));
}

#[test]
fn validate_rejects_empty_macro_steps() {
    let mut profile = desktop_repeat_profile("empty-macro");
    profile.action = Action::Macro { steps: vec![], loop_: false };
    let config = Config { schema_version: CURRENT_SCHEMA_VERSION, profiles: vec![profile] };
    let err = config.validate().unwrap_err();
    assert!(matches!(err, ConfigError::EmptyMacroSteps { profile } if profile == "empty-macro"));
}

#[test]
fn validate_accepts_empty_window_title_hint() {
    let mut profile = desktop_repeat_profile("only-one-window");
    profile.scope = Scope::Window {
        process_name: "some-app".to_string(),
        window_title_hint: String::new(),
        backend_hint_id: None,
    };
    let config = Config { schema_version: CURRENT_SCHEMA_VERSION, profiles: vec![profile] };
    assert!(config.validate().is_ok());
}

#[test]
fn load_rejects_unsupported_schema_version() {
    // `{ "schema_version": 2, "profiles": [] }`, as read from disk.
    let read = Config { schema_version: 2, profiles: vec![] };
    match read.check_loaded() {
        Err(ConfigError::UnsupportedSchemaVersion(2)) => {},
        other => panic!("expected UnsupportedSchemaVersion(2), got {other:?}"),
    }
}

// -- further cases ---------------------------------------------------------

#[test]
fn duplicate_names_are_reported_before_per_profile_rules() {
    let mut bad = desktop_repeat_profile("a");
    bad.action = Action::Macro { steps: vec![], loop_: true };
    let config = Config {
        schema_version: CURRENT_SCHEMA_VERSION,
        profiles: vec![bad, desktop_repeat_profile("b"), desktop_repeat_profile("b")],
    };
    assert!(matches!(config.validate().unwrap_err(), ConfigError::DuplicateProfileName(n) if n == "b"));
}

#[test]
fn jitter_equal_to_interval_is_accepted() {
    let mut profile = desktop_repeat_profile("edge");
    profile.action = Action::Repeat {
        input: InputEvent::Scroll { dx: 0, dy: 1 },
        interval_ms: 100,
        jitter: Jitter::Uniform { range_ms: 100 },
    };
    let config = Config { schema_version: CURRENT_SCHEMA_VERSION, profiles: vec![profile] };
    assert!(config.validate().is_ok());
}

#[test]
fn macro_with_steps_is_valid_and_check_loaded_keeps_it() {
    let mut profile = desktop_repeat_profile("m");
    profile.action = Action::Macro { steps: vec![MacroStep::Scroll { delay_ms: 5, dx: 1, dy: 0 }], loop_: false };
    let config = Config { schema_version: CURRENT_SCHEMA_VERSION, profiles: vec![profile] };
    let loaded = config.check_loaded().unwrap();
    assert_eq!(loaded.profiles.len(), 1);
    assert_eq!(migrate(loaded).unwrap().schema_version, CURRENT_SCHEMA_VERSION);
}

#[test]
fn config_error_messages() {
    assert_eq!(
        ConfigError::UnsupportedSchemaVersion(7).message(),
        "config schema_version 7 is newer than the version supported by this build (current: 1)"
    );
    assert_eq!(
        ConfigError::InvalidInterval { profile: "p".to_string() }.message(),
        "profile \"p\" has an invalid interval_ms (must be > 0)"
    );
    assert_eq!(
        ConfigError::Io(IoFailure { kind: IoErrorKind::Other, message: "boom".to_string() }).message(),
        "I/O error: boom"
    );
}
