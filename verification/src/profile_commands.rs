//! The command-line profile commands: notation-level arguments resolved
//! into typed actions, then the shared profile operations, plus the
//! `profile list` rendering.
use vstd::prelude::*;

use crate::action::{Action, ActionModel, Jitter, MacroStep, MacroStepModel};
use crate::config::Config;
use crate::notation::{
    macro_step_notation, notation_message, parse_macro_step, parse_repeat_input, repeat_input_notation,
    NotationErrorModel,
};
use crate::profile::{Profile, ProfileModel, Scope, ScopeModel};
use crate::profile_ops::{
    self, added_profile, edited_profile, first_named, has_profile_named, profile_op_message,
    without_named, window_scope_model, AddProfileArgs, EditProfileArgs, ProfileOpError,
};
use crate::text::{nat_decimal, push_str, push_u64, string_views};
use crate::window::WindowInfo;

verus! {

/// Failures of the profile commands.
#[derive(Debug, PartialEq, Eq)]
pub enum ProfileCommandError {
    /// A step or input in the notation was rejected (carries its message).
    Notation(String),
    /// The profile operation itself failed.
    Op(ProfileOpError),
    /// A flag the chosen action needs was not given.
    MissingRequiredField(&'static str),
    /// Flags of both actions were given.
    RepeatAndMacroBothOrNeitherSpecified,
}

/// The text a profile-command error is shown with.
pub open spec fn profile_command_message(e: ProfileCommandError) -> Seq<char> {
    match e {
        ProfileCommandError::Notation(msg) => msg@,
        ProfileCommandError::Op(o) => profile_op_message(o),
        ProfileCommandError::MissingRequiredField(f) => "--"@ + f@ + " is required"@,
        ProfileCommandError::RepeatAndMacroBothOrNeitherSpecified => "--action repeat's fields (--input/--interval-ms) and --action macro's fields (--step/--loop) cannot both be given at once -- only supply the fields for the --action you chose"@,
    }
}

impl ProfileCommandError {
    /// The text this error is shown with.
    pub fn message(&self) -> (r: String)
        ensures
            r@ == profile_command_message(*self),
    {
        match self {
            ProfileCommandError::Notation(msg) => msg.clone(),
            ProfileCommandError::Op(e) => e.message(),
            ProfileCommandError::MissingRequiredField(f) => {
                let mut m = String::new();
                push_str(&mut m, "--");
                push_str(&mut m, f);
                push_str(&mut m, " is required");
                assert(m@ =~= profile_command_message(*self));
                m
            },
            ProfileCommandError::RepeatAndMacroBothOrNeitherSpecified => {
                let mut m = String::new();
                push_str(
                    &mut m,
                    "--action repeat's fields (--input/--interval-ms) and --action macro's fields (--step/--loop) cannot both be given at once -- only supply the fields for the --action you chose",
                );
                assert(m@ =~= profile_command_message(*self));
                m
            },
        }
    }
}

/// An action as given on the command line, still in notation.
#[derive(Debug, Clone)]
pub enum ProfileActionArgs {
    Repeat { input: String, interval_ms: u64, jitter_ms: Option<u64> },
    Macro { steps: Vec<String>, loop_: bool },
}

/// Arguments of `profile add`.
#[derive(Debug, Clone)]
pub struct ProfileAddArgs {
    pub name: String,
    pub scope: Scope,
    pub action: ProfileActionArgs,
    pub debounce_ms: Option<u32>,
}

/// Arguments of `profile edit`: each given field overwrites the profile's.
#[derive(Debug, Clone)]
pub struct ProfileEditArgs {
    pub scope: Option<Scope>,
    pub action: Option<ProfileActionArgs>,
    pub debounce_ms: Option<u32>,
}

impl Default for ProfileEditArgs {
    fn default() -> (r: Self)
        ensures
            r.scope is None,
            r.action is None,
            r.debounce_ms is None,
    {
        ProfileEditArgs { scope: None, action: None, debounce_ms: None }
    }
}

/// A list of macro steps in notation: all of them, or the first rejection.
pub open spec fn steps_notation(steps: Seq<Seq<char>>) -> Result<Seq<MacroStepModel>, NotationErrorModel>
    decreases steps.len(),
{
    if steps.len() == 0 {
        Ok(Seq::empty())
    } else {
        match steps_notation(steps.drop_last()) {
            Err(e) => Err(e),
            Ok(done) => match macro_step_notation(steps.last()) {
                Err(e) => Err(e),
                Ok(step) => Ok(done.push(step)),
            },
        }
    }
}

/// The action a command-line action describes, or the first notation error.
/// A repeat gets uniform jitter exactly when `--jitter-ms` is given.
pub open spec fn action_from_args(args: ProfileActionArgs) -> Result<ActionModel, NotationErrorModel> {
    match args {
        ProfileActionArgs::Repeat { input, interval_ms, jitter_ms } => match repeat_input_notation(input@) {
            Err(e) => Err(e),
            Ok(event) => Ok(ActionModel::Repeat {
                input: event,
                interval_ms,
                jitter: match jitter_ms {
                    Some(range_ms) => Jitter::Uniform { range_ms },
                    None => Jitter::Disabled,
                },
            }),
        },
        ProfileActionArgs::Macro { steps, loop_ } => match steps_notation(string_views(steps@)) {
            Err(e) => Err(e),
            Ok(parsed) => Ok(ActionModel::Macro { steps: parsed, loop_ }),
        },
    }
}

proof fn lemma_steps_prefix_err(steps: Seq<Seq<char>>, k: int)
    requires
        0 <= k <= steps.len(),
        steps_notation(steps.take(k)) is Err,
    ensures
        steps_notation(steps) == steps_notation(steps.take(k)),
    decreases steps.len(),
{
    if k < steps.len() {
        assert(steps.drop_last().take(k) =~= steps.take(k));
        lemma_steps_prefix_err(steps.drop_last(), k);
    } else {
        assert(steps.take(k) =~= steps);
    }
}

/// Resolves command-line action arguments into an action.
fn build_action(args: &ProfileActionArgs) -> (r: Result<Action, ProfileCommandError>)
    ensures
        match action_from_args(*args) {
            Ok(a) => r matches Ok(x) && x.deep_view() == a,
            Err(e) => r matches Err(x) && x matches ProfileCommandError::Notation(m) && m@ == notation_message(e),
        },
{
    match args {
        ProfileActionArgs::Repeat { input, interval_ms, jitter_ms } => {
            let istr = input.as_str();
            let event = match parse_repeat_input(istr) {
                Ok(e) => e,
                Err(e) => {
                    let m = e.message();
                    return Err(ProfileCommandError::Notation(m));
                },
            };
            let jitter = match jitter_ms {
                Some(range_ms) => Jitter::Uniform { range_ms: *range_ms },
                None => Jitter::Disabled,
            };
            Ok(Action::Repeat { input: event, interval_ms: *interval_ms, jitter })
        },
        ProfileActionArgs::Macro { steps, loop_ } => {
            let ghost sv = string_views(steps@);
            let mut parsed: Vec<MacroStep> = Vec::new();
            let mut i: usize = 0;
            assert(sv.take(0) =~= Seq::<Seq<char>>::empty());
            assert(parsed.deep_view() =~= Seq::<MacroStepModel>::empty());
            assert(steps_notation(Seq::<Seq<char>>::empty()) == Ok::<Seq<MacroStepModel>, NotationErrorModel>(Seq::empty()));
            while i < steps.len()
                invariant
                    sv == string_views(steps@),
                    *args matches ProfileActionArgs::Macro { steps: st, .. } && string_views(st@) == sv,
                    i <= steps@.len(),
                    steps_notation(sv.take(i as int)) == Ok::<Seq<MacroStepModel>, NotationErrorModel>(parsed.deep_view()),
                decreases steps@.len() - i,
            {
                assert(sv.take(i + 1).drop_last() =~= sv.take(i as int));
                assert(sv.take(i + 1).last() == steps@[i as int]@);
                let sstr = steps[i].as_str();
                assert(sstr@ == steps@[i as int]@);
                match parse_macro_step(sstr) {
                    Ok(step) => {
                        let ghost before = parsed.deep_view();
                        let ghost sview = step.deep_view();
                        parsed.push(step);
                        assert(parsed.deep_view() =~= before.push(sview));
                    },
                    Err(e) => {
                        assert(steps_notation(sv.take(i + 1)) == Err::<Seq<MacroStepModel>, NotationErrorModel>(e.deep_view()));
                        proof {
                            lemma_steps_prefix_err(sv, i + 1);
                        }
                        let m = e.message();
                        return Err(ProfileCommandError::Notation(m));
                    },
                }
                i = i + 1;
            }
            assert(sv.take(steps@.len() as int) =~= sv);
            Ok(Action::Macro { steps: parsed, loop_: *loop_ })
        },
    }
}

/// Turns the user's choice among `windows` into a window scope.
pub fn resolve_window_scope(windows: &[WindowInfo], chosen_index: usize) -> (r: Result<Scope, ProfileCommandError>)
    ensures
        windows@.len() == 0 ==> r matches Err(ProfileCommandError::Op(ProfileOpError::NoWindowsAvailable)),
        windows@.len() > 0 && chosen_index >= windows@.len() ==> (r matches Err(
            ProfileCommandError::Op(ProfileOpError::WindowIndexOutOfRange { chosen, available }),
        ) && chosen == chosen_index && available == windows@.len()),
        chosen_index < windows@.len() ==> (r matches Ok(s) && s.deep_view() == window_scope_model(
            windows@[chosen_index as int],
        )),
{
    match profile_ops::resolve_window_scope(windows, chosen_index) {
        Ok(s) => Ok(s),
        Err(e) => Err(ProfileCommandError::Op(e)),
    }
}

/// `profile add`: resolves the action notation, then adds the profile. A
/// notation error leaves the config untouched.
pub fn add_profile(config: &mut Config, args: ProfileAddArgs) -> (r: Result<(), ProfileCommandError>)
    ensures
        action_from_args(args.action) matches Err(e) ==> (r matches Err(ProfileCommandError::Notation(m))
            && m@ == notation_message(e) && final(config).deep_view() == old(config).deep_view()),
        action_from_args(args.action) matches Ok(a) ==> ({
            let ps = old(config).profiles.deep_view();
            if has_profile_named(ps, args.name@) {
                &&& r matches Err(ProfileCommandError::Op(ProfileOpError::DuplicateProfileName(n)))
                &&& n@ == args.name@
                &&& final(config).deep_view() == old(config).deep_view()
            } else {
                &&& r is Ok
                &&& final(config).schema_version == old(config).schema_version
                &&& final(config).profiles.deep_view() == ps.push(
                    added_profile(args.name@, args.scope.deep_view(), a, args.debounce_ms),
                )
            }
        }),
{
    let action = build_action(&args.action)?;
    match profile_ops::add_profile(
        config,
        AddProfileArgs { name: args.name, scope: args.scope, action, debounce_ms: args.debounce_ms },
    ) {
        Ok(()) => Ok(()),
        Err(e) => Err(ProfileCommandError::Op(e)),
    }
}

/// The action arguments of an edit, resolved.
pub open spec fn edit_action_from_args(a: Option<ProfileActionArgs>) -> Result<Option<ActionModel>, NotationErrorModel> {
    match a {
        None => Ok(None),
        Some(x) => match action_from_args(x) {
            Ok(m) => Ok(Some(m)),
            Err(e) => Err(e),
        },
    }
}

/// `profile edit`: resolves the action notation first, so that a rejected
/// edit changes nothing at all, then edits the profile.
pub fn edit_profile(config: &mut Config, name: &str, args: ProfileEditArgs) -> (r: Result<(), ProfileCommandError>)
    ensures
        edit_action_from_args(args.action) matches Err(e) ==> (r matches Err(ProfileCommandError::Notation(m))
            && m@ == notation_message(e) && final(config).deep_view() == old(config).deep_view()),
        edit_action_from_args(args.action) matches Ok(a) ==> ({
            let ps = old(config).profiles.deep_view();
            if !has_profile_named(ps, name@) {
                &&& r matches Err(ProfileCommandError::Op(ProfileOpError::NoSuchProfile(n)))
                &&& n@ == name@
                &&& final(config).deep_view() == old(config).deep_view()
            } else {
                let k = first_named(ps, name@);
                &&& r is Ok
                &&& final(config).schema_version == old(config).schema_version
                &&& final(config).profiles.deep_view() == ps.update(
                    k,
                    edited_profile(
                        ps[k],
                        match args.scope {
                            Some(s) => Some(s.deep_view()),
                            None => None,
                        },
                        a,
                        args.debounce_ms,
                    ),
                )
            }
        }),
{
    let resolved_action = match &args.action {
        Some(action_args) => Some(build_action(action_args)?),
        None => None,
    };
    match profile_ops::edit_profile(
        config,
        name,
        EditProfileArgs { scope: args.scope, action: resolved_action, debounce_ms: args.debounce_ms },
    ) {
        Ok(()) => Ok(()),
        Err(e) => Err(ProfileCommandError::Op(e)),
    }
}

/// `profile remove`: removes every profile named `name`.
pub fn remove_profile(config: &mut Config, name: &str) -> (r: Result<(), ProfileCommandError>)
    ensures
        final(config).schema_version == old(config).schema_version,
        final(config).profiles.deep_view() == without_named(old(config).profiles.deep_view(), name@),
        has_profile_named(old(config).profiles.deep_view(), name@) <==> r is Ok,
        r matches Err(e) ==> (e matches ProfileCommandError::Op(ProfileOpError::NoSuchProfile(n)) && n@ == name@),
{
    match profile_ops::remove_profile(config, name) {
        Ok(()) => Ok(()),
        Err(e) => Err(ProfileCommandError::Op(e)),
    }
}

// ---------------------------------------------------------------------------
// `profile list`
// ---------------------------------------------------------------------------

/// `Desktop`, or `Window(<process_name>)`.
pub open spec fn scope_summary(s: ScopeModel) -> Seq<char> {
    match s {
        ScopeModel::Desktop => "Desktop"@,
        ScopeModel::Window { process_name, .. } => "Window("@ + process_name + ")"@,
    }
}

/// `Repeat every <interval>ms±<range>ms` (or `±no jitter`), or
/// `Macro (<n> steps, looping|once)`.
pub open spec fn action_summary(a: ActionModel) -> Seq<char> {
    match a {
        ActionModel::Repeat { interval_ms, jitter, .. } => match jitter {
            Jitter::Disabled => "Repeat every "@ + nat_decimal(interval_ms as nat) + "ms\u{00b1}no jitter"@,
            Jitter::Uniform { range_ms } => "Repeat every "@ + nat_decimal(interval_ms as nat) + "ms\u{00b1}"@
                + nat_decimal(range_ms as nat) + "ms"@,
        },
        ActionModel::Macro { steps, loop_ } => "Macro ("@ + nat_decimal(steps.len()) + " steps, "@ + (if loop_ {
            "looping"@
        } else {
            "once"@
        }) + ")"@,
    }
}

/// One tab-separated listing line.
pub open spec fn profile_line(p: ProfileModel) -> Seq<char> {
    p.name + "\t"@ + scope_summary(p.scope) + "\t"@ + action_summary(p.action) + "\tdebounce="@ + nat_decimal(
        p.debounce_ms as nat,
    ) + "ms\n"@
}

/// The listing: one line per profile, in order.
pub open spec fn profile_listing(ps: Seq<ProfileModel>) -> Seq<char>
    decreases ps.len(),
{
    if ps.len() == 0 {
        Seq::empty()
    } else {
        profile_listing(ps.drop_last()) + profile_line(ps.last())
    }
}

fn push_scope_summary(out: &mut String, scope: &Scope)
    ensures
        final(out)@ == old(out)@ + scope_summary(scope.deep_view()),
{
    match scope {
        Scope::Desktop => push_str(out, "Desktop"),
        Scope::Window { process_name, .. } => {
            push_str(out, "Window(");
            push_str(out, process_name.as_str());
            push_str(out, ")");
        },
    }
    assert(out@ =~= old(out)@ + scope_summary(scope.deep_view()));
}

fn push_action_summary(out: &mut String, action: &Action)
    ensures
        final(out)@ == old(out)@ + action_summary(action.deep_view()),
{
    match action {
        Action::Repeat { interval_ms, jitter, .. } => {
            push_str(out, "Repeat every ");
            push_u64(out, *interval_ms);
            match jitter {
                Jitter::Disabled => push_str(out, "ms\u{00b1}no jitter"),
                Jitter::Uniform { range_ms } => {
                    push_str(out, "ms\u{00b1}");
                    push_u64(out, *range_ms);
                    push_str(out, "ms");
                },
            }
        },
        Action::Macro { steps, loop_ } => {
            push_str(out, "Macro (");
            push_u64(out, steps.len() as u64);
            push_str(out, " steps, ");
            if *loop_ {
                push_str(out, "looping");
            } else {
                push_str(out, "once");
            }
            push_str(out, ")");
        },
    }
    assert(out@ =~= old(out)@ + action_summary(action.deep_view()));
}

fn push_profile_line(out: &mut String, profile: &Profile)
    ensures
        final(out)@ == old(out)@ + profile_line(profile.deep_view()),
{
    push_str(out, profile.name.as_str());
    push_str(out, "\t");
    push_scope_summary(out, &profile.scope);
    push_str(out, "\t");
    push_action_summary(out, &profile.action);
    push_str(out, "\tdebounce=");
    push_u64(out, profile.debounce_ms as u64);
    push_str(out, "ms\n");
    assert(out@ =~= old(out)@ + profile_line(profile.deep_view()));
}

/// `profile list`: one line per profile.
pub fn format_profile_list(config: &Config) -> (r: String)
    ensures
        r@ == profile_listing(config.profiles.deep_view()),
{
    let ghost ps = config.profiles.deep_view();
    let mut out = String::new();
    let mut i: usize = 0;
    assert(ps.take(0) =~= Seq::<ProfileModel>::empty());
    while i < config.profiles.len()
        invariant
            ps == config.profiles.deep_view(),
            i <= ps.len(),
            out@ == profile_listing(ps.take(i as int)),
        decreases ps.len() - i,
    {
        assert(ps.take(i + 1).drop_last() =~= ps.take(i as int));
        assert(ps.take(i + 1).last() == config.profiles@[i as int].deep_view());
        push_profile_line(&mut out, &config.profiles[i]);
        i = i + 1;
    }
    assert(ps.take(ps.len() as int) =~= ps);
    out
}

} // verus!
