//! `Profile` and `Scope`: the unit of automation and its target.
use vstd::prelude::*;

use crate::action::{Action, ActionModel};
use crate::hotkey::{KeyCombo, KeyComboModel};

verus! {

/// The debounce a profile gets when its stored form does not name one.
pub fn default_debounce_ms() -> (r: u32)
    ensures
        r == 400,
{
    400
}

/// Target selection: the whole desktop, or one window matched by process
/// name and title hint.
#[derive(Debug, PartialEq)]
pub enum Scope {
    /// Inject into whatever is currently focused.
    Desktop,
    /// Inject into a window matching the given criteria.
    Window {
        /// Process executable name (e.g. "firefox").
        process_name: String,
        /// Substring of the window title that narrows the match.
        window_title_hint: String,
        /// Backend-specific identifier of the window last chosen.
        backend_hint_id: Option<String>,
    },
}

/// The mathematical content of a `Scope`.
#[verifier::ext_equal]
pub enum ScopeModel {
    Desktop,
    Window { process_name: Seq<char>, window_title_hint: Seq<char>, backend_hint_id: Option<Seq<char>> },
}

impl DeepView for Scope {
    type V = ScopeModel;

    open spec fn deep_view(&self) -> ScopeModel {
        match self {
            Scope::Desktop => ScopeModel::Desktop,
            Scope::Window { process_name, window_title_hint, backend_hint_id } => ScopeModel::Window {
                process_name: process_name@,
                window_title_hint: window_title_hint@,
                backend_hint_id: match backend_hint_id {
                    Some(h) => Some(h@),
                    None => None,
                },
            },
        }
    }
}

impl Clone for Scope {
    fn clone(&self) -> (r: Self)
        ensures
            r.deep_view() == self.deep_view(),
    {
        match self {
            Scope::Desktop => Scope::Desktop,
            Scope::Window { process_name, window_title_hint, backend_hint_id } => Scope::Window {
                process_name: process_name.clone(),
                window_title_hint: window_title_hint.clone(),
                backend_hint_id: match backend_hint_id {
                    Some(h) => Some(h.clone()),
                    None => None,
                },
            },
        }
    }
}

/// A hotkey trigger bound to an action, scoped to a target, with debouncing.
#[derive(Debug, PartialEq)]
pub struct Profile {
    pub name: String,
    pub trigger: KeyCombo,
    pub action: Action,
    pub scope: Scope,
    pub focus_steal: bool,
    pub debounce_ms: u32,
}

/// The mathematical content of a `Profile`.
#[verifier::ext_equal]
pub struct ProfileModel {
    pub name: Seq<char>,
    pub trigger: KeyComboModel,
    pub action: ActionModel,
    pub scope: ScopeModel,
    pub focus_steal: bool,
    pub debounce_ms: u32,
}

impl DeepView for Profile {
    type V = ProfileModel;

    open spec fn deep_view(&self) -> ProfileModel {
        ProfileModel {
            name: self.name@,
            trigger: self.trigger.deep_view(),
            action: self.action.deep_view(),
            scope: self.scope.deep_view(),
            focus_steal: self.focus_steal,
            debounce_ms: self.debounce_ms,
        }
    }
}

impl Clone for Profile {
    fn clone(&self) -> (r: Self)
        ensures
            r.deep_view() == self.deep_view(),
    {
        Profile {
            name: self.name.clone(),
            trigger: self.trigger.clone(),
            action: self.action.clone(),
            scope: self.scope.clone(),
            focus_steal: self.focus_steal,
            debounce_ms: self.debounce_ms,
        }
    }
}

} // verus!
