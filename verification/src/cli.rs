//! The command-line front end's decisions: which action flags go together,
//! when a failed load only means that no config file exists yet, and the
//! validation every changed config passes before anything is saved.
use vstd::prelude::*;

use crate::config::{
    config_message, is_valid_config, is_violation_error, validation_failure, Config, ConfigError,
    CURRENT_SCHEMA_VERSION,
};
use crate::io_failure::IoErrorKind;
use crate::profile_commands::{
    action_from_args, add_profile, edit_action_from_args, edit_profile, profile_command_message, remove_profile,
    ProfileActionArgs, ProfileAddArgs, ProfileCommandError, ProfileEditArgs,
};
use crate::profile_ops::{added_profile, edited_profile, first_named, has_profile_named, without_named};

verus! {

/// The `--action` a profile command names.
#[derive(Debug, Clone, Copy, PartialEq, Eq)]
pub enum ActionArg {
    Repeat,
    Macro,
}

/// `--input`, `--interval-ms` or `--jitter-ms`, the repeat-only flags, given.
pub open spec fn repeat_fields_given(input: Option<String>, interval_ms: Option<u64>, jitter_ms: Option<u64>) -> bool {
    input is Some || interval_ms is Some || jitter_ms is Some
}

/// `--step` or `--loop`, the macro-only flags, given.
pub open spec fn macro_fields_given(step: Seq<String>, loop_: bool) -> bool {
    step.len() > 0 || loop_
}

/// Builds the notation-level action from the raw flags. Exactly the flags
/// of the chosen action may be given: a flag of the other action is a
/// conflict, and a missing required flag is reported by name (`input`
/// before `interval-ms`).
pub fn build_action_args(
    action: ActionArg,
    input: Option<String>,
    interval_ms: Option<u64>,
    jitter_ms: Option<u64>,
    step: Vec<String>,
    loop_: bool,
) -> (r: Result<ProfileActionArgs, ProfileCommandError>)
    ensures
        action == ActionArg::Repeat ==> {
            if macro_fields_given(step@, loop_) {
                r matches Err(ProfileCommandError::RepeatAndMacroBothOrNeitherSpecified)
            } else if input is None {
                r matches Err(ProfileCommandError::MissingRequiredField(f)) && f@ == "input"@
            } else if interval_ms is None {
                r matches Err(ProfileCommandError::MissingRequiredField(f)) && f@ == "interval-ms"@
            } else {
                r matches Ok(ProfileActionArgs::Repeat { input: i, interval_ms: n, jitter_ms: j }) && Some(i@) == (
                match input {
                    Some(x) => Some(x@),
                    None => None,
                }) && Some(n) == interval_ms && j == jitter_ms
            }
        },
        action == ActionArg::Macro ==> {
            if repeat_fields_given(input, interval_ms, jitter_ms) {
                r matches Err(ProfileCommandError::RepeatAndMacroBothOrNeitherSpecified)
            } else if step@.len() == 0 {
                r matches Err(ProfileCommandError::MissingRequiredField(f)) && f@ == "step"@
            } else {
                r matches Ok(ProfileActionArgs::Macro { steps: s, loop_: l }) && s@ == step@ && l == loop_
            }
        },
{
    let repeat_given = input.is_some() || interval_ms.is_some() || jitter_ms.is_some();
    let macro_given = step.len() > 0 || loop_;
    match action {
        ActionArg::Repeat => {
            if macro_given {
                return Err(ProfileCommandError::RepeatAndMacroBothOrNeitherSpecified);
            }
            let input = match input {
                Some(i) => i,
                None => {
                    return Err(ProfileCommandError::MissingRequiredField("input"));
                },
            };
            let interval_ms = match interval_ms {
                Some(n) => n,
                None => {
                    return Err(ProfileCommandError::MissingRequiredField("interval-ms"));
                },
            };
            Ok(ProfileActionArgs::Repeat { input, interval_ms, jitter_ms })
        },
        ActionArg::Macro => {
            if repeat_given {
                return Err(ProfileCommandError::RepeatAndMacroBothOrNeitherSpecified);
            }
            if step.len() == 0 {
                return Err(ProfileCommandError::MissingRequiredField("step"));
            }
            Ok(ProfileActionArgs::Macro { steps: step, loop_ })
        },
    }
}

/// Whether `profile edit` must be refused for giving an action-detail flag
/// without `--action`: those flags only mean something for a chosen action.
pub fn edit_needs_action_flag(
    action_given: bool,
    input: &Option<String>,
    interval_ms: &Option<u64>,
    jitter_ms: &Option<u64>,
    step: &[String],
    loop_: bool,
) -> (r: bool)
    ensures
        r == (!action_given && (input is Some || interval_ms is Some || jitter_ms is Some || step@.len() > 0
            || loop_)),
{
    !action_given && (input.is_some() || interval_ms.is_some() || jitter_ms.is_some() || step.len() > 0 || loop_)
}

/// The message `profile edit` is refused with when an action-detail flag
/// comes without `--action`.
pub fn edit_needs_action_message() -> (r: &'static str)
    ensures
        r@ == "--action is required whenever --input/--interval-ms/--jitter-ms/--step/--loop are given to `profile edit` -- these flags only apply together with --action (repeat's --input/--interval-ms/--jitter-ms, or macro's --step/--loop)"@,
{
    "--action is required whenever --input/--interval-ms/--jitter-ms/--step/--loop are given to `profile edit` -- these flags only apply together with --action (repeat's --input/--interval-ms/--jitter-ms, or macro's --step/--loop)"
}

/// The one load failure that is expected on a first run: the config file
/// does not exist yet. Any other failure (unreadable, unparseable, invalid,
/// unsupported schema) must not be papered over, or the next save would
/// overwrite a salvageable file.
pub open spec fn first_run_missing_file(e: ConfigError) -> bool {
    e matches ConfigError::Io(f) && f.kind == IoErrorKind::NotFound
}

/// Whether a load failure is just a first run with no config file yet.
pub fn is_first_run_missing_file(err: &ConfigError) -> (r: bool)
    ensures
        r == first_run_missing_file(*err),
{
    match err {
        ConfigError::Io(f) => match f.kind {
            IoErrorKind::NotFound => true,
            IoErrorKind::Other => false,
        },
        _ => false,
    }
}

/// The config a command works on, given what loading it produced: the
/// loaded config, an empty current-schema config on a first run, or the
/// load failure itself.
pub fn config_or_default(loaded: Result<Config, ConfigError>) -> (r: Result<Config, ConfigError>)
    ensures
        loaded is Ok ==> r == loaded,
        loaded matches Err(e) && first_run_missing_file(e) ==> (r matches Ok(c) && c.schema_version
            == CURRENT_SCHEMA_VERSION && c.profiles@.len() == 0),
        loaded matches Err(e) && !first_run_missing_file(e) ==> r == loaded,
{
    match loaded {
        Ok(c) => Ok(c),
        Err(e) => {
            if is_first_run_missing_file(&e) {
                Ok(Config { schema_version: CURRENT_SCHEMA_VERSION, profiles: Vec::new() })
            } else {
                Err(e)
            }
        },
    }
}

/// Why a mutating profile command stops before saving.
#[derive(Debug)]
pub enum CommandError {
    /// The command itself was refused.
    Command(ProfileCommandError),
    /// The command succeeded but left a config that fails validation.
    Invalid(ConfigError),
}

/// The config validates, or the validation failure is `e`.
fn validated(config: &Config) -> (r: Result<(), CommandError>)
    ensures
        r is Ok <==> is_valid_config(config.profiles.deep_view()),
        r matches Err(x) ==> (x matches CommandError::Invalid(e) && validation_failure(
            config.profiles.deep_view(),
        ) matches Some((v, name)) && is_violation_error(e, v, name)),
{
    match config.validate() {
        Ok(()) => Ok(()),
        Err(e) => Err(CommandError::Invalid(e)),
    }
}

impl CommandError {
    /// The text this error is shown with.
    pub fn message(&self) -> (r: String)
        ensures
            match self {
                CommandError::Command(e) => r@ == profile_command_message(*e),
                CommandError::Invalid(e) => r@ == config_message(*e),
            },
    {
        match self {
            CommandError::Command(e) => e.message(),
            CommandError::Invalid(e) => e.message(),
        }
    }
}

/// `profile add` up to saving: adds the profile, then validates the whole
/// config. A refused add leaves the config as it was; `Ok` means the
/// config may be saved, and it then passes validation.
pub fn add_command(config: &mut Config, args: ProfileAddArgs) -> (r: Result<(), CommandError>)
    ensures
        ({
            let ps = old(config).profiles.deep_view();
            match action_from_args(args.action) {
                Ok(a) if !has_profile_named(ps, args.name@) => {
                    &&& final(config).schema_version == old(config).schema_version
                    &&& final(config).profiles.deep_view() == ps.push(
                        added_profile(args.name@, args.scope.deep_view(), a, args.debounce_ms),
                    )
                    &&& r is Ok <==> is_valid_config(final(config).profiles.deep_view())
                    &&& r matches Err(x) ==> x is Invalid
                },
                _ => r matches Err(CommandError::Command(_)) && final(config).deep_view()
                    == old(config).deep_view(),
            }
        }),
        r is Ok ==> is_valid_config(final(config).profiles.deep_view()),
{
    match add_profile(config, args) {
        Ok(()) => validated(config),
        Err(e) => Err(CommandError::Command(e)),
    }
}

/// `profile edit` up to saving: edits the profile, then validates the whole
/// config. A refused edit leaves the config as it was; `Ok` means the
/// config may be saved, and it then passes validation.
pub fn edit_command(config: &mut Config, name: &str, args: ProfileEditArgs) -> (r: Result<(), CommandError>)
    ensures
        ({
            let ps = old(config).profiles.deep_view();
            match edit_action_from_args(args.action) {
                Ok(a) if has_profile_named(ps, name@) => {
                    let k = first_named(ps, name@);
                    &&& final(config).schema_version == old(config).schema_version
                    &&& final(config).profiles.deep_view() == ps.update(
                        k,
                        edited_profile(
                            ps[k],
                            match args.scope {
                                Some(s) => Some(s.deep_view()),
                                None => None,
                            },
                            a,
                            args.debounce_ms,
                        ),
                    )
                    &&& r is Ok <==> is_valid_config(final(config).profiles.deep_view())
                    &&& r matches Err(x) ==> x is Invalid
                },
                _ => r matches Err(CommandError::Command(_)) && final(config).deep_view()
                    == old(config).deep_view(),
            }
        }),
        r is Ok ==> is_valid_config(final(config).profiles.deep_view()),
{
    match edit_profile(config, name, args) {
        Ok(()) => validated(config),
        Err(e) => Err(CommandError::Command(e)),
    }
}

/// `profile remove` up to saving: removes the profile, then validates the
/// whole config. `Ok` means the config may be saved, and it then passes
/// validation.
pub fn remove_command(config: &mut Config, name: &str) -> (r: Result<(), CommandError>)
    ensures
        final(config).schema_version == old(config).schema_version,
        final(config).profiles.deep_view() == without_named(old(config).profiles.deep_view(), name@),
        !has_profile_named(old(config).profiles.deep_view(), name@) ==> r matches Err(CommandError::Command(_)),
        has_profile_named(old(config).profiles.deep_view(), name@) ==> (r is Ok <==> is_valid_config(
            final(config).profiles.deep_view(),
        )),
        r is Ok ==> is_valid_config(final(config).profiles.deep_view()),
{
    match remove_profile(config, name) {
        Ok(()) => validated(config),
        Err(e) => Err(CommandError::Command(e)),
    }
}

} // verus!
