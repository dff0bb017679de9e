//! The command sequences of the command-line front end, with the saved
//! config standing in for the file on disk: a command's result is saved
//! only when the library clears it for saving.

use orchestrator::cli::{add_command, build_action_args, edit_command, edit_needs_action_flag, ActionArg};
use orchestrator::config::{Config, CURRENT_SCHEMA_VERSION};
use orchestrator::profile::Scope;
use orchestrator::profile_commands::{format_profile_list, ProfileAddArgs, ProfileEditArgs};

fn copy(config: &Config) -> Config {
    Config { schema_version: config.schema_version, profiles: config.profiles.clone() }
}

/// `profile add --name <name> --scope desktop --action repeat --input <input> --interval-ms <ms>`.
fn add(saved: &mut Config, name: &str, input: &str, interval_ms: u64) -> bool {
    let action = build_action_args(ActionArg::Repeat, Some(input.to_string()), Some(interval_ms), None, vec![], false)
        .unwrap();
    let mut config = copy(saved);
    let args = ProfileAddArgs { name: name.to_string(), scope: Scope::Desktop, action, debounce_ms: None };
    match add_command(&mut config, args) {
        Ok(()) => {
            *saved = config;
            true
        },
        Err(_) => false,
    }
}

#[test]
fn invalid_add_does_not_destroy_existing_profiles() {
    let mut saved = Config { schema_version: CURRENT_SCHEMA_VERSION, profiles: vec![] };
    assert!(add(&mut saved, "p1", "key:A", 100), "p1 add failed");
    assert!(add(&mut saved, "p2", "key:B", 200), "p2 add failed");
    let listing_before = format_profile_list(&saved);
    assert!(listing_before.contains("p1"), "{listing_before}");
    assert!(listing_before.contains("p2"), "{listing_before}");

    assert!(!add(&mut saved, "bad", "key:C", 0), "adding a profile with --interval-ms 0 must fail, not succeed");

    let listing_after = format_profile_list(&saved);
    assert!(listing_after.contains("p1"), "p1 must survive a failed add, got: {listing_after:?}");
    assert!(listing_after.contains("p2"), "p2 must survive a failed add, got: {listing_after:?}");
    assert!(!listing_after.contains("bad"), "the invalid profile must never have been saved, got: {listing_after:?}");

    assert!(add(&mut saved, "p3", "key:D", 300), "p3 add failed");
    let listing_final = format_profile_list(&saved);
    assert!(listing_final.contains("p1"), "{listing_final}");
    assert!(listing_final.contains("p2"), "{listing_final}");
    assert!(listing_final.contains("p3"), "{listing_final}");
}

#[test]
fn invalid_edit_does_not_destroy_existing_profiles() {
    let mut saved = Config { schema_version: CURRENT_SCHEMA_VERSION, profiles: vec![] };
    assert!(add(&mut saved, "keep-me", "key:A", 100), "initial add failed");

    let action =
        build_action_args(ActionArg::Repeat, Some("key:A".to_string()), Some(100), Some(999), vec![], false).unwrap();
    let mut config = copy(&saved);
    let result = edit_command(&mut config, "keep-me", ProfileEditArgs { scope: None, action: Some(action), debounce_ms: None });
    assert!(result.is_err(), "editing to a jitter_ms exceeding interval_ms must fail, not succeed");

    let listing = format_profile_list(&saved);
    assert!(listing.contains("keep-me"), "the original profile must survive a failed edit, got: {listing:?}");
}

#[test]
fn edit_with_interval_ms_but_no_action_errors_instead_of_silently_doing_nothing() {
    let mut saved = Config { schema_version: CURRENT_SCHEMA_VERSION, profiles: vec![] };
    assert!(add(&mut saved, "p1", "key:A", 100), "initial add failed");
    assert!(
        edit_needs_action_flag(false, &None, &Some(999), &None, &[], false),
        "edit with --interval-ms but no --action must fail, not silently succeed"
    );
    let listing = format_profile_list(&saved);
    assert!(listing.contains("100ms"), "interval_ms must remain 100 after the rejected edit, got: {listing:?}");
    assert!(!listing.contains("999ms"));
}

#[test]
fn add_macro_with_jitter_ms_is_rejected() {
    let result = build_action_args(ActionArg::Macro, None, None, Some(10), vec!["key:A:10".to_string()], false);
    assert!(result.is_err(), "--action macro combined with --jitter-ms must be rejected");
}

#[test]
fn a_macro_profile_round_trips_through_the_command_layer() {
    let mut saved = Config { schema_version: CURRENT_SCHEMA_VERSION, profiles: vec![] };
    let action = build_action_args(ActionArg::Macro, None, None, None, vec!["key:Ctrl+C:50".to_string()], true).unwrap();
    let mut config = copy(&saved);
    let args = ProfileAddArgs { name: "m".to_string(), scope: Scope::Desktop, action, debounce_ms: Some(10) };
    add_command(&mut config, args).unwrap();
    saved = config;
    assert_eq!(format_profile_list(&saved), "m\tDesktop\tMacro (1 steps, looping)\tdebounce=10ms\n");
}
