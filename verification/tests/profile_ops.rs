use orchestrator::action::{Action, Jitter, MacroStep};
use orchestrator::config::{Config, CURRENT_SCHEMA_VERSION};
use orchestrator::hotkey::{KeyCombo, Modifier};
use orchestrator::input::InputEvent;
use orchestrator::profile::Scope;
use orchestrator::profile_ops::{
    add_profile, edit_profile, focus_steal_for, placeholder_trigger, remove_profile, resolve_window_scope,
    AddProfileArgs, EditProfileArgs, ProfileOpError,
};
use orchestrator::window::{WindowHandle, WindowInfo};

fn empty_config() -> Config {
    Config { schema_version: CURRENT_SCHEMA_VERSION, profiles: vec![] }
}

fn sample_windows() -> Vec<WindowInfo> {
    vec![
        WindowInfo {
            handle: WindowHandle("h1".to_string()),
            pid: Some(1),
            process_name: Some("firefox".to_string()),
            title: "Mozilla Firefox".to_string(),
        },
        WindowInfo {
            handle: WindowHandle("h2".to_string()),
            pid: Some(2),
            process_name: Some("code".to_string()),
            title: "orchestrator - VS Code".to_string(),
        },
    ]
}

fn key_a_repeat(interval_ms: u64) -> Action {
    Action::Repeat {
        input: InputEvent::KeyPress(KeyCombo { modifiers: vec![], key: "A".to_string() }),
        interval_ms,
        jitter: Jitter::Disabled,
    }
}

#[test]
fn resolve_window_scope_picks_the_chosen_index() {
    let scope = resolve_window_scope(&sample_windows(), 1).unwrap();
    assert_eq!(
        scope,
        Scope::Window {
            process_name: "code".to_string(),
            window_title_hint: "orchestrator - VS Code".to_string(),
            backend_hint_id: Some("h2".to_string()),
        }
    );
}

#[test]
fn resolve_window_scope_rejects_out_of_range_index() {
    let err = resolve_window_scope(&sample_windows(), 5).unwrap_err();
    assert_eq!(err, ProfileOpError::WindowIndexOutOfRange { chosen: 5, available: 2 });
}

#[test]
fn resolve_window_scope_rejects_empty_window_list() {
    let err = resolve_window_scope(&[], 0).unwrap_err();
    assert_eq!(err, ProfileOpError::NoWindowsAvailable);
}

#[test]
fn add_profile_desktop_repeat_writes_placeholder_trigger_and_derived_focus_steal() {
    let mut config = empty_config();
    let args = AddProfileArgs { name: "clicker".to_string(), scope: Scope::Desktop, action: key_a_repeat(100), debounce_ms: None };
    add_profile(&mut config, args).unwrap();
    assert_eq!(config.profiles.len(), 1);
    let profile = &config.profiles[0];
    assert_eq!(profile.name, "clicker");
    assert_eq!(profile.trigger, KeyCombo { modifiers: vec![], key: String::new() });
    assert!(!profile.focus_steal, "Scope::Desktop must derive focus_steal = false");
    assert_eq!(profile.debounce_ms, 400, "omitted debounce_ms must default to 400");
    assert_eq!(profile.action, key_a_repeat(100));
}

#[test]
fn add_profile_rejects_duplicate_names() {
    let mut config = empty_config();
    let args = |name: &str| AddProfileArgs {
        name: name.to_string(),
        scope: Scope::Desktop,
        action: Action::Repeat { input: InputEvent::Scroll { dx: 0, dy: 1 }, interval_ms: 50, jitter: Jitter::Disabled },
        debounce_ms: None,
    };
    add_profile(&mut config, args("dup")).unwrap();
    let err = add_profile(&mut config, args("dup")).unwrap_err();
    assert_eq!(err, ProfileOpError::DuplicateProfileName("dup".to_string()));
}

#[test]
fn add_profile_window_scope_derives_focus_steal_true() {
    let mut config = empty_config();
    let args = AddProfileArgs {
        name: "windowed".to_string(),
        scope: Scope::Window {
            process_name: "firefox".to_string(),
            window_title_hint: "Mozilla Firefox".to_string(),
            backend_hint_id: Some("h1".to_string()),
        },
        action: Action::Repeat { input: InputEvent::Scroll { dx: 0, dy: -1 }, interval_ms: 100, jitter: Jitter::Disabled },
        debounce_ms: Some(250),
    };
    add_profile(&mut config, args).unwrap();
    assert!(config.profiles[0].focus_steal);
    assert_eq!(config.profiles[0].debounce_ms, 250);
}

#[test]
fn add_profile_macro_with_steps_and_loop() {
    let mut config = empty_config();
    let args = AddProfileArgs {
        name: "macro-one".to_string(),
        scope: Scope::Desktop,
        action: Action::Macro {
            steps: vec![
                MacroStep::Scroll { delay_ms: 20, dx: 0, dy: 1 },
                MacroStep::KeyPress { combo: KeyCombo { modifiers: vec![Modifier::Ctrl], key: "C".to_string() }, delay_ms: 50 },
            ],
            loop_: true,
        },
        debounce_ms: None,
    };
    add_profile(&mut config, args).unwrap();
    match &config.profiles[0].action {
        Action::Macro { steps, loop_ } => {
            assert_eq!(steps.len(), 2);
            assert!(*loop_);
        },
        other => panic!("expected Action::Macro, got {other:?}"),
    }
}

#[test]
fn edit_profile_overwrites_only_given_fields() {
    let mut config = empty_config();
    add_profile(
        &mut config,
        AddProfileArgs { name: "target".to_string(), scope: Scope::Desktop, action: key_a_repeat(100), debounce_ms: Some(400) },
    )
    .unwrap();
    let new_action = Action::Repeat {
        input: InputEvent::KeyPress(KeyCombo { modifiers: vec![], key: "B".to_string() }),
        interval_ms: 200,
        jitter: Jitter::Disabled,
    };
    edit_profile(
        &mut config,
        "target",
        EditProfileArgs { action: Some(new_action.clone()), scope: None, debounce_ms: None },
    )
    .unwrap();
    let profile = &config.profiles[0];
    assert_eq!(profile.debounce_ms, 400, "debounce_ms must be unchanged when not given to edit");
    assert_eq!(profile.action, new_action);
}

#[test]
fn edit_profile_errors_for_unknown_name() {
    let mut config = empty_config();
    let err = edit_profile(&mut config, "nope", EditProfileArgs { action: None, scope: None, debounce_ms: None }).unwrap_err();
    assert_eq!(err, ProfileOpError::NoSuchProfile("nope".to_string()));
}

#[test]
fn edit_profile_scope_only_change_flips_focus_steal() {
    let mut config = empty_config();
    add_profile(
        &mut config,
        AddProfileArgs { name: "target".to_string(), scope: Scope::Desktop, action: key_a_repeat(100), debounce_ms: None },
    )
    .unwrap();
    assert!(!config.profiles[0].focus_steal);
    edit_profile(
        &mut config,
        "target",
        EditProfileArgs {
            scope: Some(Scope::Window {
                process_name: "firefox".to_string(),
                window_title_hint: "Mozilla Firefox".to_string(),
                backend_hint_id: Some("h1".to_string()),
            }),
            action: None,
            debounce_ms: None,
        },
    )
    .unwrap();
    assert!(config.profiles[0].focus_steal, "Desktop -> Window edit must flip focus_steal to true");
    edit_profile(&mut config, "target", EditProfileArgs { scope: Some(Scope::Desktop), action: None, debounce_ms: None })
        .unwrap();
    assert!(!config.profiles[0].focus_steal, "Window -> Desktop edit must flip focus_steal back to false");
}

#[test]
fn remove_profile_removes_by_name() {
    let mut config = empty_config();
    add_profile(
        &mut config,
        AddProfileArgs { name: "gone".to_string(), scope: Scope::Desktop, action: key_a_repeat(100), debounce_ms: None },
    )
    .unwrap();
    remove_profile(&mut config, "gone").unwrap();
    assert!(config.profiles.is_empty());
}

#[test]
fn remove_profile_errors_for_unknown_name() {
    let mut config = empty_config();
    let err = remove_profile(&mut config, "nope").unwrap_err();
    assert_eq!(err, ProfileOpError::NoSuchProfile("nope".to_string()));
}

// -- further cases ---------------------------------------------------------

#[test]
fn removing_what_was_added_restores_the_profile_list() {
    let mut config = empty_config();
    add_profile(
        &mut config,
        AddProfileArgs { name: "keep".to_string(), scope: Scope::Desktop, action: key_a_repeat(10), debounce_ms: None },
    )
    .unwrap();
    let before = config.profiles.clone();
    add_profile(
        &mut config,
        AddProfileArgs { name: "temp".to_string(), scope: Scope::Desktop, action: key_a_repeat(20), debounce_ms: None },
    )
    .unwrap();
    remove_profile(&mut config, "temp").unwrap();
    assert_eq!(config.profiles, before);
}

#[test]
fn edit_keeps_position_and_other_profiles() {
    let mut config = empty_config();
    for name in ["a", "b", "c"] {
        add_profile(
            &mut config,
            AddProfileArgs { name: name.to_string(), scope: Scope::Desktop, action: key_a_repeat(10), debounce_ms: None },
        )
        .unwrap();
    }
    edit_profile(&mut config, "b", EditProfileArgs { scope: None, action: None, debounce_ms: Some(9) }).unwrap();
    let names: Vec<&str> = config.profiles.iter().map(|p| p.name.as_str()).collect();
    assert_eq!(names, vec!["a", "b", "c"]);
    assert_eq!(config.profiles[1].debounce_ms, 9);
    assert_eq!(config.profiles[0].debounce_ms, 400);
}

#[test]
fn placeholder_and_focus_steal_helpers() {
    assert_eq!(placeholder_trigger(), KeyCombo { modifiers: vec![], key: String::new() });
    assert!(!focus_steal_for(&Scope::Desktop));
    assert!(focus_steal_for(&Scope::Window {
        process_name: "x".to_string(),
        window_title_hint: String::new(),
        backend_hint_id: None
    }));
    assert_eq!(
        ProfileOpError::WindowIndexOutOfRange { chosen: 5, available: 2 }.message(),
        "chosen window index 5 is out of range (0..2)"
    );
}
