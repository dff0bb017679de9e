//! Profile editing on an in-memory `Config`, shared by every front end.
//! Notation parsing happens before these are called; everything here works
//! on already-typed `Scope`/`Action` values.
use vstd::prelude::*;

use crate::action::{Action, ActionModel};
use crate::config::{names_unique, Config};
use crate::hotkey::{KeyCombo, KeyComboModel};
use crate::profile::{Profile, ProfileModel, Scope, ScopeModel};
use crate::text::{debug_quoted, debug_str, nat_decimal, push_str, push_u64};
use crate::window::WindowInfo;

verus! {

/// Failures of the profile editing operations.
#[derive(Debug, PartialEq, Eq)]
pub enum ProfileOpError {
    NoSuchProfile(String),
    DuplicateProfileName(String),
    NoWindowsAvailable,
    WindowIndexOutOfRange { chosen: usize, available: usize },
}

/// The trigger written into new profiles: no modifiers, empty key. The
/// actual combo is assigned by the hotkey backend when the profile first runs.
pub open spec fn placeholder_trigger_model() -> KeyComboModel {
    KeyComboModel { modifiers: Seq::empty(), key: Seq::empty() }
}

/// The trigger written into new profiles.
pub fn placeholder_trigger() -> (r: KeyCombo)
    ensures
        r.deep_view() == placeholder_trigger_model(),
{
    KeyCombo { modifiers: Vec::new(), key: String::new() }
}

/// Window-scoped profiles steal focus; desktop-scoped ones do not.
pub open spec fn focus_steal_for_model(scope: ScopeModel) -> bool {
    scope is Window
}

/// Whether a profile with this scope steals focus when it runs.
pub fn focus_steal_for(scope: &Scope) -> (r: bool)
    ensures
        r == focus_steal_for_model(scope.deep_view()),
{
    match scope {
        Scope::Window { .. } => true,
        Scope::Desktop => false,
    }
}

/// The window scope built from a chosen window: its process name (empty when
/// unknown), its title verbatim as the hint, and its handle as the id hint.
pub open spec fn window_scope_model(w: WindowInfo) -> ScopeModel {
    ScopeModel::Window {
        process_name: match w.process_name {
            Some(p) => p@,
            None => Seq::empty(),
        },
        window_title_hint: w.title@,
        backend_hint_id: Some(w.handle.0@),
    }
}

/// Turns the user's choice among `windows` into a window scope.
pub fn resolve_window_scope(windows: &[WindowInfo], chosen_index: usize) -> (r: Result<Scope, ProfileOpError>)
    ensures
        windows@.len() == 0 ==> r matches Err(ProfileOpError::NoWindowsAvailable),
        windows@.len() > 0 && chosen_index >= windows@.len() ==> (r matches Err(
            ProfileOpError::WindowIndexOutOfRange { chosen, available },
        ) && chosen == chosen_index && available == windows@.len()),
        chosen_index < windows@.len() ==> (r matches Ok(s) && s.deep_view() == window_scope_model(
            windows@[chosen_index as int],
        )),
{
    if windows.len() == 0 {
        return Err(ProfileOpError::NoWindowsAvailable);
    }
    if chosen_index >= windows.len() {
        return Err(ProfileOpError::WindowIndexOutOfRange { chosen: chosen_index, available: windows.len() });
    }
    let window = &windows[chosen_index];
    let process_name = match &window.process_name {
        Some(p) => p.clone(),
        None => String::new(),
    };
    Ok(Scope::Window {
        process_name,
        window_title_hint: window.title.clone(),
        backend_hint_id: Some(window.handle.0.clone()),
    })
}

/// Arguments of `add_profile`.
#[derive(Debug)]
pub struct AddProfileArgs {
    pub name: String,
    pub scope: Scope,
    pub action: Action,
    pub debounce_ms: Option<u32>,
}

/// Arguments of `edit_profile`: each given field overwrites the profile's.
#[derive(Debug)]
pub struct EditProfileArgs {
    pub scope: Option<Scope>,
    pub action: Option<Action>,
    pub debounce_ms: Option<u32>,
}

impl Default for EditProfileArgs {
    fn default() -> (r: Self)
        ensures
            r.scope is None,
            r.action is None,
            r.debounce_ms is None,
    {
        EditProfileArgs { scope: None, action: None, debounce_ms: None }
    }
}

/// Some profile in `ps` is named `name`.
pub open spec fn has_profile_named(ps: Seq<ProfileModel>, name: Seq<char>) -> bool {
    exists|i: int| 0 <= i < ps.len() && #[trigger] ps[i].name == name
}

/// The profile `add_profile` appends.
pub open spec fn added_profile(name: Seq<char>, scope: ScopeModel, action: ActionModel, debounce_ms: Option<u32>) -> ProfileModel {
    ProfileModel {
        name,
        trigger: placeholder_trigger_model(),
        action,
        scope,
        focus_steal: focus_steal_for_model(scope),
        debounce_ms: match debounce_ms {
            Some(d) => d,
            None => 400,
        },
    }
}

/// Finds the first profile named `name`.
fn find_profile(ps: &Vec<Profile>, name: &String) -> (r: Option<usize>)
    ensures
        r matches Some(k) ==> k < ps@.len() && ps.deep_view()[k as int].name == name@
            && forall|j: int| 0 <= j < k ==> ps.deep_view()[j].name != name@,
        r is None ==> !has_profile_named(ps.deep_view(), name@),
{
    let mut i: usize = 0;
    while i < ps.len()
        invariant
            i <= ps@.len(),
            forall|j: int| 0 <= j < i ==> ps.deep_view()[j].name != name@,
        decreases ps@.len() - i,
    {
        if ps[i].name == *name {
            return Some(i);
        }
        i = i + 1;
    }
    None
}

/// Appends a new profile named `args.name`, unless one by that name exists.
/// The new profile gets the placeholder trigger, focus stealing exactly when
/// its scope is a window, and a debounce of 400 ms unless one is given.
pub fn add_profile(config: &mut Config, args: AddProfileArgs) -> (r: Result<(), ProfileOpError>)
    ensures
        has_profile_named(old(config).profiles.deep_view(), args.name@) ==> (r matches Err(
            ProfileOpError::DuplicateProfileName(n),
        ) && n@ == args.name@ && final(config).deep_view() == old(config).deep_view()),
        !has_profile_named(old(config).profiles.deep_view(), args.name@) ==> (r is Ok
            && final(config).schema_version == old(config).schema_version
            && final(config).profiles.deep_view() == old(config).profiles.deep_view().push(
            added_profile(args.name@, args.scope.deep_view(), args.action.deep_view(), args.debounce_ms),
        )),
{
    if find_profile(&config.profiles, &args.name).is_some() {
        return Err(ProfileOpError::DuplicateProfileName(args.name));
    }
    let focus_steal = focus_steal_for(&args.scope);
    let debounce_ms = match args.debounce_ms {
        Some(d) => d,
        None => 400,
    };
    let profile = Profile {
        name: args.name,
        trigger: placeholder_trigger(),
        focus_steal,
        scope: args.scope,
        action: args.action,
        debounce_ms,
    };
    let ghost old_ps = config.profiles@;
    let ghost pv = profile.deep_view();
    config.profiles.push(profile);
    assert(config.profiles.deep_view() =~= old(config).profiles.deep_view().push(pv));
    Ok(())
}

/// The profile `edit_profile` leaves in place of `p`.
pub open spec fn edited_profile(p: ProfileModel, scope: Option<ScopeModel>, action: Option<ActionModel>, debounce_ms: Option<u32>) -> ProfileModel {
    ProfileModel {
        name: p.name,
        trigger: p.trigger,
        action: match action {
            Some(a) => a,
            None => p.action,
        },
        scope: match scope {
            Some(s) => s,
            None => p.scope,
        },
        focus_steal: match scope {
            Some(s) => focus_steal_for_model(s),
            None => p.focus_steal,
        },
        debounce_ms: match debounce_ms {
            Some(d) => d,
            None => p.debounce_ms,
        },
    }
}

/// The content of an optional scope.
pub open spec fn scope_opt_model(s: Option<Scope>) -> Option<ScopeModel> {
    match s {
        Some(x) => Some(x.deep_view()),
        None => None,
    }
}

/// The content of an optional action.
pub open spec fn action_opt_model(a: Option<Action>) -> Option<ActionModel> {
    match a {
        Some(x) => Some(x.deep_view()),
        None => None,
    }
}

/// The position of the first profile named `name`.
pub open spec fn first_named(ps: Seq<ProfileModel>, name: Seq<char>) -> int {
    choose|k: int| 0 <= k < ps.len() && ps[k].name == name && forall|j: int| 0 <= j < k ==> ps[j].name != name
}

/// The first profile named `name` is the one at `k` when no earlier
/// profile has that name.
pub proof fn lemma_first_named(ps: Seq<ProfileModel>, name: Seq<char>, k: int)
    requires
        0 <= k < ps.len(),
        ps[k].name == name,
        forall|j: int| 0 <= j < k ==> ps[j].name != name,
    ensures
        first_named(ps, name) == k,
{
    let c = first_named(ps, name);
    assert(0 <= c < ps.len() && ps[c].name == name && forall|j: int| 0 <= j < c ==> ps[j].name != name);
    if c < k {
        assert(ps[c].name != name);
    } else if c > k {
        assert(ps[k].name != name);
    }
}

/// Overwrites the given fields of the first profile named `name`. Changing
/// the scope also re-derives focus stealing. The name, trigger and position
/// of the profile, and every other profile, stay as they were.
pub fn edit_profile(config: &mut Config, name: &str, args: EditProfileArgs) -> (r: Result<(), ProfileOpError>)
    ensures
        !has_profile_named(old(config).profiles.deep_view(), name@) ==> (r matches Err(
            ProfileOpError::NoSuchProfile(n),
        ) && n@ == name@ && final(config).deep_view() == old(config).deep_view()),
        has_profile_named(old(config).profiles.deep_view(), name@) ==> ({
            let ps = old(config).profiles.deep_view();
            let k = first_named(ps, name@);
            &&& r is Ok
            &&& final(config).schema_version == old(config).schema_version
            &&& final(config).profiles.deep_view() == ps.update(
                k,
                edited_profile(ps[k], scope_opt_model(args.scope), action_opt_model(args.action), args.debounce_ms),
            )
        }),
{
    let key = name.to_owned();
    let found = find_profile(&config.profiles, &key);
    let k = match found {
        Some(k) => k,
        None => {
            return Err(ProfileOpError::NoSuchProfile(key));
        },
    };
    let ghost ps = config.profiles.deep_view();
    proof {
        lemma_first_named(ps, name@, k as int);
    }
    let ghost scope_v = scope_opt_model(args.scope);
    let ghost action_v = action_opt_model(args.action);
    let mut profile = config.profiles.remove(k);
    assert(profile.deep_view() == ps[k as int]);
    if let Some(scope) = args.scope {
        profile.focus_steal = focus_steal_for(&scope);
        profile.scope = scope;
    }
    if let Some(action) = args.action {
        profile.action = action;
    }
    if let Some(debounce_ms) = args.debounce_ms {
        profile.debounce_ms = debounce_ms;
    }
    let ghost edited = profile.deep_view();
    assert(edited == edited_profile(ps[k as int], scope_v, action_v, args.debounce_ms));
    let ghost mid = config.profiles@;
    config.profiles.insert(k, profile);
    assert(config.profiles.deep_view() =~= ps.update(k as int, edited));
    Ok(())
}

/// The profiles `remove_profile` keeps: every one not named `name`, in order.
pub open spec fn without_named(ps: Seq<ProfileModel>, name: Seq<char>) -> Seq<ProfileModel> {
    ps.filter(|p: ProfileModel| p.name != name)
}

/// Removes every profile named `name`; fails if there is none.
pub fn remove_profile(config: &mut Config, name: &str) -> (r: Result<(), ProfileOpError>)
    ensures
        final(config).schema_version == old(config).schema_version,
        final(config).profiles.deep_view() == without_named(old(config).profiles.deep_view(), name@),
        has_profile_named(old(config).profiles.deep_view(), name@) <==> r is Ok,
        r matches Err(e) ==> (e matches ProfileOpError::NoSuchProfile(n) && n@ == name@),
{
    let key = name.to_owned();
    let ghost old_ps = config.profiles.deep_view();
    let ghost pred = |p: ProfileModel| p.name != name@;
    let before = config.profiles.len();
    let mut i: usize = 0;
    let mut src: usize = 0;
    assert(old_ps.take(0) =~= Seq::<ProfileModel>::empty());
    assert(config.profiles.deep_view() =~= old_ps.take(0).filter(pred) + old_ps.skip(0));
    while i < config.profiles.len()
        invariant
            before == old_ps.len(),
            src <= before,
            i == old_ps.take(src as int).filter(pred).len(),
            config.profiles.deep_view() == old_ps.take(src as int).filter(pred) + old_ps.skip(src as int),
            config.schema_version == old(config).schema_version,
            pred == (|p: ProfileModel| p.name != name@),
            key@ == name@,
        decreases config.profiles@.len() - i,
    {
        let ghost cur = config.profiles.deep_view();
        assert(cur.len() == i + (before - src));
        assert(cur[i as int] == old_ps[src as int]);
        assert(cur[i as int].name == config.profiles@[i as int].name@);
        assert(old_ps.take(src + 1) =~= old_ps.take(src as int).push(old_ps[src as int]));
        proof {
            old_ps.take(src as int).lemma_filter_push(old_ps[src as int], pred);
        }
        let ghost f = old_ps.take(src as int).filter(pred);
        let ghost x = old_ps[src as int];
        assert(old_ps.skip(src as int) =~= seq![x] + old_ps.skip(src + 1));
        if config.profiles[i].name == key {
            assert(!pred(x));
            assert(old_ps.take(src + 1).filter(pred) == f);
            let _gone = config.profiles.remove(i);
            assert(config.profiles.deep_view() =~= cur.remove(i as int));
            assert(cur.remove(i as int) =~= f + old_ps.skip(src + 1));
        } else {
            assert(pred(x));
            assert(old_ps.take(src + 1).filter(pred) == f.push(x));
            assert(cur =~= f.push(x) + old_ps.skip(src + 1));
            i = i + 1;
        }
        src = src + 1;
    }
    assert(src == before);
    assert(old_ps.take(before as int) =~= old_ps);
    assert(config.profiles.deep_view() =~= without_named(old_ps, name@));
    if config.profiles.len() == before {
        proof {
            lemma_filter_same_len_keeps_all(old_ps, pred);
        }
        return Err(ProfileOpError::NoSuchProfile(key));
    }
    proof {
        lemma_filter_shorter_drops_one(old_ps, pred);
    }
    Ok(())
}

proof fn lemma_filter_same_len_keeps_all(s: Seq<ProfileModel>, pred: spec_fn(ProfileModel) -> bool)
    requires
        s.filter(pred).len() == s.len(),
    ensures
        forall|i: int| 0 <= i < s.len() ==> pred(#[trigger] s[i]),
    decreases s.len(),
{
    reveal(Seq::filter);
    if s.len() > 0 {
        s.drop_last().lemma_filter_len(pred);
        if !pred(s.last()) {
            assert(s.filter(pred).len() <= s.drop_last().len());
        } else {
            lemma_filter_same_len_keeps_all(s.drop_last(), pred);
            assert forall|i: int| 0 <= i < s.len() implies pred(#[trigger] s[i]) by {
                if i < s.len() - 1 {
                    assert(s[i] == s.drop_last()[i]);
                }
            }
        }
    }
}

proof fn lemma_filter_shorter_drops_one(s: Seq<ProfileModel>, pred: spec_fn(ProfileModel) -> bool)
    requires
        s.filter(pred).len() != s.len(),
    ensures
        exists|i: int| 0 <= i < s.len() && !pred(#[trigger] s[i]),
    decreases s.len(),
{
    reveal(Seq::filter);
    if s.len() == 0 {
    } else if !pred(s.last()) {
        assert(!pred(s[s.len() - 1]));
    } else {
        lemma_filter_shorter_drops_one(s.drop_last(), pred);
        let i = choose|i: int| 0 <= i < s.drop_last().len() && !pred(#[trigger] s.drop_last()[i]);
        assert(s[i] == s.drop_last()[i]);
    }
}


proof fn lemma_filter_all_kept(s: Seq<ProfileModel>, pred: spec_fn(ProfileModel) -> bool)
    requires
        forall|i: int| 0 <= i < s.len() ==> pred(#[trigger] s[i]),
    ensures
        s.filter(pred) == s,
    decreases s.len(),
{
    reveal(Seq::filter);
    if s.len() > 0 {
        assert forall|i: int| 0 <= i < s.drop_last().len() implies pred(#[trigger] s.drop_last()[i]) by {
            assert(s.drop_last()[i] == s[i]);
        }
        lemma_filter_all_kept(s.drop_last(), pred);
        assert(pred(s[s.len() - 1]));
        assert(s.drop_last().push(s.last()) =~= s);
    }
}

/// Adding a profile and then removing it by name gives back the profile list
/// as it was: removal undoes a successful addition.
pub proof fn law_remove_undoes_add(
    ps: Seq<ProfileModel>,
    name: Seq<char>,
    scope: ScopeModel,
    action: ActionModel,
    debounce_ms: Option<u32>,
)
    requires
        !has_profile_named(ps, name),
    ensures
        without_named(ps.push(added_profile(name, scope, action, debounce_ms)), name) == ps,
{
    let pred = |p: ProfileModel| p.name != name;
    ps.lemma_filter_push(added_profile(name, scope, action, debounce_ms), pred);
    assert forall|i: int| 0 <= i < ps.len() implies pred(#[trigger] ps[i]) by {
        if ps[i].name == name {
            assert(has_profile_named(ps, name));
        }
    }
    lemma_filter_all_kept(ps, pred);
}

/// A successful addition keeps profile names unique.
pub proof fn law_add_keeps_names_unique(
    ps: Seq<ProfileModel>,
    name: Seq<char>,
    scope: ScopeModel,
    action: ActionModel,
    debounce_ms: Option<u32>,
)
    requires
        names_unique(ps),
        !has_profile_named(ps, name),
    ensures
        names_unique(ps.push(added_profile(name, scope, action, debounce_ms))),
{
    let qs = ps.push(added_profile(name, scope, action, debounce_ms));
    assert forall|i: int, j: int| 0 <= i < j < qs.len() implies qs[i].name != qs[j].name by {
        if j == ps.len() {
            if ps[i].name == name {
                assert(has_profile_named(ps, name));
            }
        } else {
            assert(qs[i] == ps[i] && qs[j] == ps[j]);
        }
    }
}

/// Editing never renames, adds or drops a profile, so it keeps profile
/// names unique.
pub proof fn law_edit_keeps_names_unique(
    ps: Seq<ProfileModel>,
    k: int,
    scope: Option<ScopeModel>,
    action: Option<ActionModel>,
    debounce_ms: Option<u32>,
)
    requires
        names_unique(ps),
        0 <= k < ps.len(),
    ensures
        names_unique(ps.update(k, edited_profile(ps[k], scope, action, debounce_ms))),
        ps.update(k, edited_profile(ps[k], scope, action, debounce_ms)).len() == ps.len(),
        forall|i: int| 0 <= i < ps.len() ==> #[trigger] ps.update(k, edited_profile(ps[k], scope, action, debounce_ms))[i].name == ps[i].name,
{
    let qs = ps.update(k, edited_profile(ps[k], scope, action, debounce_ms));
    assert forall|i: int| 0 <= i < ps.len() implies #[trigger] qs[i].name == ps[i].name by {}
    assert forall|i: int, j: int| 0 <= i < j < qs.len() implies qs[i].name != qs[j].name by {
        assert(qs[i].name == ps[i].name && qs[j].name == ps[j].name);
    }
}

/// After a removal no profile by that name is left, and the remaining
/// profiles keep unique names.
pub proof fn law_remove_leaves_none_named(ps: Seq<ProfileModel>, name: Seq<char>)
    ensures
        !has_profile_named(without_named(ps, name), name),
        names_unique(ps) ==> names_unique(without_named(ps, name)),
    decreases ps.len(),
{
    reveal(Seq::filter);
    let pred = |p: ProfileModel| p.name != name;
    let out = without_named(ps, name);
    if ps.len() > 0 {
        law_remove_leaves_none_named(ps.drop_last(), name);
        let prev = without_named(ps.drop_last(), name);
        assert(ps.drop_last().filter(pred) == prev);
        if names_unique(ps) {
            assert forall|i: int, j: int| 0 <= i < j < ps.drop_last().len() implies ps.drop_last()[i].name
                != ps.drop_last()[j].name by {
                assert(ps.drop_last()[i] == ps[i] && ps.drop_last()[j] == ps[j]);
            }
            if pred(ps.last()) {
                assert forall|i: int| 0 <= i < prev.len() implies #[trigger] prev[i].name != ps.last().name by {
                    ps.drop_last().lemma_filter_pred(pred, i);
                    lemma_filter_member(ps.drop_last(), pred, i);
                    let m = choose|m: int| 0 <= m < ps.drop_last().len() && ps.drop_last()[m] == prev[i];
                    assert(ps[m] == prev[i]);
                    assert(ps[m].name != ps[ps.len() - 1].name);
                }
                assert forall|i: int, j: int| 0 <= i < j < out.len() implies out[i].name != out[j].name by {
                    if j == prev.len() {
                        assert(out[i] == prev[i]);
                    } else {
                        assert(out[i] == prev[i] && out[j] == prev[j]);
                    }
                }
            }
        }
        if has_profile_named(out, name) {
            let i = choose|i: int| 0 <= i < out.len() && #[trigger] out[i].name == name;
            if pred(ps.last()) && i == prev.len() {
                assert(out[i] == ps.last());
            } else {
                assert(out[i] == prev[i]);
                assert(has_profile_named(prev, name));
            }
        }
    }
}

proof fn lemma_filter_member(s: Seq<ProfileModel>, pred: spec_fn(ProfileModel) -> bool, i: int)
    requires
        0 <= i < s.filter(pred).len(),
    ensures
        exists|m: int| 0 <= m < s.len() && s[m] == s.filter(pred)[i],
    decreases s.len(),
{
    reveal(Seq::filter);
    if s.len() > 0 {
        let prev = s.drop_last().filter(pred);
        if pred(s.last()) && i == prev.len() {
            assert(s[s.len() - 1] == s.filter(pred)[i]);
        } else {
            assert(s.filter(pred)[i] == prev[i]);
            lemma_filter_member(s.drop_last(), pred, i);
            let m = choose|m: int| 0 <= m < s.drop_last().len() && s.drop_last()[m] == prev[i];
            assert(s[m] == s.drop_last()[m]);
        }
    }
}


/// The text a profile-operation error is shown with.
pub open spec fn profile_op_message(e: ProfileOpError) -> Seq<char> {
    match e {
        ProfileOpError::NoSuchProfile(n) => "no profile named "@ + debug_quoted(n@),
        ProfileOpError::DuplicateProfileName(n) => "a profile named "@ + debug_quoted(n@) + " already exists"@,
        ProfileOpError::NoWindowsAvailable => "no windows are currently open to choose from"@,
        ProfileOpError::WindowIndexOutOfRange { chosen, available } => "chosen window index "@ + nat_decimal(
            chosen as nat,
        ) + " is out of range (0.."@ + nat_decimal(available as nat) + ")"@,
    }
}

impl ProfileOpError {
    /// The text this error is shown with.
    pub fn message(&self) -> (r: String)
        ensures
            r@ == profile_op_message(*self),
    {
        let mut m = String::new();
        match self {
            ProfileOpError::NoSuchProfile(n) => {
                push_str(&mut m, "no profile named ");
                push_str(&mut m, debug_str(n.as_str()).as_str());
            },
            ProfileOpError::DuplicateProfileName(n) => {
                push_str(&mut m, "a profile named ");
                push_str(&mut m, debug_str(n.as_str()).as_str());
                push_str(&mut m, " already exists");
            },
            ProfileOpError::NoWindowsAvailable => {
                push_str(&mut m, "no windows are currently open to choose from");
            },
            ProfileOpError::WindowIndexOutOfRange { chosen, available } => {
                push_str(&mut m, "chosen window index ");
                push_u64(&mut m, *chosen as u64);
                push_str(&mut m, " is out of range (0..");
                push_u64(&mut m, *available as u64);
                push_str(&mut m, ")");
            },
        }
        assert(m@ =~= profile_op_message(*self));
        m
    }
}

} // verus!
