//! `Config`: the stored profile list, its schema version, its validation,
//! and the post-read steps of loading it.
use vstd::prelude::*;

use crate::action::{Action, ActionModel, Jitter};
use crate::io_failure::IoFailure;
use crate::profile::{Profile, ProfileModel, Scope, ScopeModel};
use crate::text::{join_path, nat_decimal, path_join, push_str, push_u64};

verus! {

/// Current on-disk schema version; a stored config with a newer version is
/// rejected.
pub const CURRENT_SCHEMA_VERSION: u32 = 1;

/// The stored configuration.
#[derive(Debug, PartialEq)]
pub struct Config {
    pub schema_version: u32,
    pub profiles: Vec<Profile>,
}

/// The default config file under the platform configuration directory
/// `config_dir`: `<config_dir>/orchestrator/config.json`.
pub fn config_path_under(config_dir: &str) -> (r: String)
    ensures
        r@ == path_join(config_dir@, "orchestrator/config.json"@),
{
    join_path(config_dir, "orchestrator/config.json")
}

/// The mathematical content of a `Config`.
#[verifier::ext_equal]
pub struct ConfigModel {
    pub schema_version: u32,
    pub profiles: Seq<ProfileModel>,
}

impl DeepView for Config {
    type V = ConfigModel;

    open spec fn deep_view(&self) -> ConfigModel {
        ConfigModel { schema_version: self.schema_version, profiles: self.profiles.deep_view() }
    }
}

/// Failures of loading, saving or validating a config.
#[derive(Debug)]
pub enum ConfigError {
    Io(IoFailure),
    Serde(String),
    UnsupportedSchemaVersion(u32),
    DuplicateProfileName(String),
    InvalidInterval { profile: String },
    JitterRangeExceedsInterval { profile: String },
    EmptyWindowProcessName { profile: String },
    EmptyMacroSteps { profile: String },
}

/// The validation rules a config can break.
pub enum Violation {
    DuplicateProfileName,
    InvalidInterval,
    JitterRangeExceedsInterval,
    EmptyWindowProcessName,
    EmptyMacroSteps,
}

/// `e` is the validation error for `v`, naming the profile `name`.
pub open spec fn is_violation_error(e: ConfigError, v: Violation, name: Seq<char>) -> bool {
    match v {
        Violation::DuplicateProfileName => e matches ConfigError::DuplicateProfileName(n) && n@ == name,
        Violation::InvalidInterval => e matches ConfigError::InvalidInterval { profile } && profile@ == name,
        Violation::JitterRangeExceedsInterval => e matches ConfigError::JitterRangeExceedsInterval {
            profile,
        } && profile@ == name,
        Violation::EmptyWindowProcessName => e matches ConfigError::EmptyWindowProcessName {
            profile,
        } && profile@ == name,
        Violation::EmptyMacroSteps => e matches ConfigError::EmptyMacroSteps { profile } && profile@ == name,
    }
}

/// The profile at `j` shares its name with an earlier one.
pub open spec fn is_duplicate_at(ps: Seq<ProfileModel>, j: int) -> bool {
    exists|i: int| 0 <= i < j && #[trigger] ps[i].name == ps[j].name
}

/// All profile names are distinct (case-sensitive).
pub open spec fn names_unique(ps: Seq<ProfileModel>) -> bool {
    forall|i: int, j: int| 0 <= i < j < ps.len() ==> ps[i].name != ps[j].name
}

/// The first position at or after `j` whose profile repeats an earlier name.
pub open spec fn first_duplicate_from(ps: Seq<ProfileModel>, j: int) -> Option<int>
    decreases ps.len() - j,
{
    if j < 0 || j >= ps.len() {
        None
    } else if is_duplicate_at(ps, j) {
        Some(j)
    } else {
        first_duplicate_from(ps, j + 1)
    }
}

/// What is wrong with a single profile, checked in the order the rules are
/// listed: the action first, then the scope.
pub open spec fn profile_violation(p: ProfileModel) -> Option<Violation> {
    let action_violation = match p.action {
        ActionModel::Repeat { interval_ms, jitter, .. } => {
            if interval_ms == 0 {
                Some(Violation::InvalidInterval)
            } else if jitter matches Jitter::Uniform { range_ms } && range_ms > interval_ms {
                Some(Violation::JitterRangeExceedsInterval)
            } else {
                None
            }
        },
        ActionModel::Macro { steps, .. } => {
            if steps.len() == 0 {
                Some(Violation::EmptyMacroSteps)
            } else {
                None
            }
        },
    };
    match action_violation {
        Some(v) => Some(v),
        None => match p.scope {
            ScopeModel::Window { process_name, .. } => {
                if process_name.len() == 0 {
                    Some(Violation::EmptyWindowProcessName)
                } else {
                    None
                }
            },
            ScopeModel::Desktop => None,
        },
    }
}

/// The first position at or after `j` whose profile breaks a per-profile rule.
pub open spec fn first_violation_from(ps: Seq<ProfileModel>, j: int) -> Option<int>
    decreases ps.len() - j,
{
    if j < 0 || j >= ps.len() {
        None
    } else if profile_violation(ps[j]) is Some {
        Some(j)
    } else {
        first_violation_from(ps, j + 1)
    }
}

/// The outcome of validation: the first failure found, with the name of the
/// profile it concerns, or `None` for a valid config. Name uniqueness is
/// checked over the whole list before any per-profile rule.
pub open spec fn validation_failure(ps: Seq<ProfileModel>) -> Option<(Violation, Seq<char>)> {
    match first_duplicate_from(ps, 0) {
        Some(j) => Some((Violation::DuplicateProfileName, ps[j].name)),
        None => match first_violation_from(ps, 0) {
            Some(j) => Some((profile_violation(ps[j])->0, ps[j].name)),
            None => None,
        },
    }
}

/// A config that passes every validation rule.
pub open spec fn is_valid_config(ps: Seq<ProfileModel>) -> bool {
    validation_failure(ps) is None
}

/// The search for a repeated name from position `j` finds one in range,
/// and finds none only when there is none.
pub proof fn lemma_first_duplicate_bounds(ps: Seq<ProfileModel>, j: int)
    requires
        0 <= j,
    ensures
        first_duplicate_from(ps, j) matches Some(k) ==> j <= k < ps.len() && is_duplicate_at(ps, k),
        first_duplicate_from(ps, j) is None ==> forall|k: int| j <= k < ps.len() ==> !is_duplicate_at(ps, k),
    decreases ps.len() - j,
{
    if 0 <= j < ps.len() && !is_duplicate_at(ps, j) {
        lemma_first_duplicate_bounds(ps, j + 1);
    }
}

/// The search for a rule-breaking profile from position `j` finds one in
/// range, and finds none only when there is none.
pub proof fn lemma_first_violation_bounds(ps: Seq<ProfileModel>, j: int)
    requires
        0 <= j,
    ensures
        first_violation_from(ps, j) matches Some(k) ==> j <= k < ps.len() && profile_violation(ps[k]) is Some,
        first_violation_from(ps, j) is None ==> forall|k: int|
            j <= k < ps.len() ==> profile_violation(#[trigger] ps[k]) is None,
    decreases ps.len() - j,
{
    if 0 <= j < ps.len() && profile_violation(ps[j]) is None {
        lemma_first_violation_bounds(ps, j + 1);
    }
}

/// A config without duplicate names has unique names.
pub proof fn lemma_no_duplicate_unique(ps: Seq<ProfileModel>)
    requires
        first_duplicate_from(ps, 0) is None,
    ensures
        names_unique(ps),
{
    lemma_first_duplicate_bounds(ps, 0);
    assert forall|i: int, j: int| 0 <= i < j < ps.len() implies ps[i].name != ps[j].name by {
        assert(!is_duplicate_at(ps, j));
    }
}

/// The per-profile rule check, in rule order.
fn check_profile(p: &Profile) -> (r: Result<(), ConfigError>)
    ensures
        match profile_violation(p.deep_view()) {
            Some(v) => r matches Err(e) && is_violation_error(e, v, p.name@),
            None => r is Ok,
        },
{
    match &p.action {
        Action::Repeat { interval_ms, jitter, .. } => {
            if *interval_ms == 0 {
                return Err(ConfigError::InvalidInterval { profile: p.name.clone() });
            }
            if let Jitter::Uniform { range_ms } = jitter {
                if *range_ms > *interval_ms {
                    return Err(ConfigError::JitterRangeExceedsInterval { profile: p.name.clone() });
                }
            }
        },
        Action::Macro { steps, .. } => {
            if steps.len() == 0 {
                return Err(ConfigError::EmptyMacroSteps { profile: p.name.clone() });
            }
        },
    }
    if let Scope::Window { process_name, .. } = &p.scope {
        if process_name.as_str().is_empty() {
            return Err(ConfigError::EmptyWindowProcessName { profile: p.name.clone() });
        }
    }
    Ok(())
}

impl Config {
    /// Validates this config, returning the first failure found:
    ///
    /// 1. All profile names are unique (case-sensitive).
    /// 2. Every repeat action has `interval_ms > 0`.
    /// 3. Every repeat action with uniform jitter has `range_ms <= interval_ms`.
    /// 4. Every window scope has a non-empty process name (the title hint may
    ///    be empty).
    /// 5. Every macro action has at least one step.
    pub fn validate(&self) -> (r: Result<(), ConfigError>)
        ensures
            match validation_failure(self.profiles.deep_view()) {
                Some((v, name)) => r matches Err(e) && is_violation_error(e, v, name),
                None => r is Ok,
            },
    {
        let ghost ps = self.profiles.deep_view();
        let n = self.profiles.len();
        let mut j: usize = 0;
        while j < n
            invariant
                n == self.profiles@.len(),
                ps == self.profiles.deep_view(),
                j <= n,
                first_duplicate_from(ps, 0) == first_duplicate_from(ps, j as int),
            decreases n - j,
        {
            let mut i: usize = 0;
            while i < j
                invariant
                    n == self.profiles@.len(),
                    ps == self.profiles.deep_view(),
                    i <= j < n,
                    first_duplicate_from(ps, 0) == first_duplicate_from(ps, j as int),
                    forall|k: int| 0 <= k < i ==> ps[k].name != ps[j as int].name,
                decreases j - i,
            {
                if self.profiles[i].name == self.profiles[j].name {
                    assert(ps[i as int].name == ps[j as int].name);
                    assert(is_duplicate_at(ps, j as int));
                    assert(first_duplicate_from(ps, j as int) == Some(j as int));
                    assert(ps[j as int].name == self.profiles@[j as int].name@);
                    return Err(ConfigError::DuplicateProfileName(self.profiles[j].name.clone()));
                }
                i = i + 1;
            }
            assert(!is_duplicate_at(ps, j as int));
            j = j + 1;
        }
        assert(first_duplicate_from(ps, 0) is None);

        let mut j: usize = 0;
        while j < n
            invariant
                n == self.profiles@.len(),
                ps == self.profiles.deep_view(),
                j <= n,
                first_duplicate_from(ps, 0) is None,
                first_violation_from(ps, 0) == first_violation_from(ps, j as int),
            decreases n - j,
        {
            let checked = check_profile(&self.profiles[j]);
            if checked.is_err() {
                return checked;
            }
            j = j + 1;
        }
        Ok(())
    }

    /// The steps `load` runs on a freshly read config: migration, then
    /// validation. The config comes back unchanged when both pass.
    pub fn check_loaded(self) -> (r: Result<Config, ConfigError>)
        ensures
            self.schema_version > CURRENT_SCHEMA_VERSION ==> (r matches Err(ConfigError::UnsupportedSchemaVersion(v))
                && v == self.schema_version),
            self.schema_version <= CURRENT_SCHEMA_VERSION ==> match validation_failure(self.profiles.deep_view()) {
                Some((v, name)) => r matches Err(e) && is_violation_error(e, v, name),
                None => r matches Ok(c) && c == self,
            },
    {
        let config = migrate(self)?;
        match config.validate() {
            Ok(()) => Ok(config),
            Err(e) => Err(e),
        }
    }
}

/// Migration hook run on every loaded config: today there is only schema
/// version 1, so older-or-equal versions pass unchanged and newer ones are
/// rejected.
pub fn migrate(config: Config) -> (r: Result<Config, ConfigError>)
    ensures
        config.schema_version > CURRENT_SCHEMA_VERSION ==> (r matches Err(ConfigError::UnsupportedSchemaVersion(v))
            && v == config.schema_version),
        config.schema_version <= CURRENT_SCHEMA_VERSION ==> (r matches Ok(c) && c == config),
{
    if config.schema_version > CURRENT_SCHEMA_VERSION {
        return Err(ConfigError::UnsupportedSchemaVersion(config.schema_version));
    }
    Ok(config)
}


/// The text a config error is shown with.
pub open spec fn config_message(e: ConfigError) -> Seq<char> {
    match e {
        ConfigError::Io(f) => "I/O error: "@ + f.message@,
        ConfigError::Serde(m) => "JSON (de)serialization error: "@ + m@,
        ConfigError::UnsupportedSchemaVersion(v) => "config schema_version "@ + nat_decimal(v as nat)
            + " is newer than the version supported by this build (current: "@ + nat_decimal(
            CURRENT_SCHEMA_VERSION as nat,
        ) + ")"@,
        ConfigError::DuplicateProfileName(n) => "duplicate profile name: \""@ + n@ + "\""@,
        ConfigError::InvalidInterval { profile } => "profile \""@ + profile@
            + "\" has an invalid interval_ms (must be > 0)"@,
        ConfigError::JitterRangeExceedsInterval { profile } => "profile \""@ + profile@
            + "\" has a jitter range_ms that exceeds interval_ms"@,
        ConfigError::EmptyWindowProcessName { profile } => "profile \""@ + profile@
            + "\" has an empty Scope::Window.process_name"@,
        ConfigError::EmptyMacroSteps { profile } => "profile \""@ + profile@ + "\" has an empty Action::Macro.steps"@,
    }
}

impl ConfigError {
    /// The text this error is shown with.
    pub fn message(&self) -> (r: String)
        ensures
            r@ == config_message(*self),
    {
        let mut m = String::new();
        match self {
            ConfigError::Io(f) => {
                push_str(&mut m, "I/O error: ");
                push_str(&mut m, f.message.as_str());
            },
            ConfigError::Serde(e) => {
                push_str(&mut m, "JSON (de)serialization error: ");
                push_str(&mut m, e.as_str());
            },
            ConfigError::UnsupportedSchemaVersion(v) => {
                push_str(&mut m, "config schema_version ");
                push_u64(&mut m, *v as u64);
                push_str(&mut m, " is newer than the version supported by this build (current: ");
                push_u64(&mut m, CURRENT_SCHEMA_VERSION as u64);
                push_str(&mut m, ")");
            },
            ConfigError::DuplicateProfileName(n) => {
                push_str(&mut m, "duplicate profile name: \"");
                push_str(&mut m, n.as_str());
                push_str(&mut m, "\"");
            },
            ConfigError::InvalidInterval { profile } => {
                push_str(&mut m, "profile \"");
                push_str(&mut m, profile.as_str());
                push_str(&mut m, "\" has an invalid interval_ms (must be > 0)");
            },
            ConfigError::JitterRangeExceedsInterval { profile } => {
                push_str(&mut m, "profile \"");
                push_str(&mut m, profile.as_str());
                push_str(&mut m, "\" has a jitter range_ms that exceeds interval_ms");
            },
            ConfigError::EmptyWindowProcessName { profile } => {
                push_str(&mut m, "profile \"");
                push_str(&mut m, profile.as_str());
                push_str(&mut m, "\" has an empty Scope::Window.process_name");
            },
            ConfigError::EmptyMacroSteps { profile } => {
                push_str(&mut m, "profile \"");
                push_str(&mut m, profile.as_str());
                push_str(&mut m, "\" has an empty Action::Macro.steps");
            },
        }
        assert(m@ =~= config_message(*self));
        m
    }
}

} // verus!
