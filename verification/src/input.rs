//! Input vocabulary: synthetic input events, mouse buttons and injection errors.
use vstd::prelude::*;

use crate::hotkey::{macos_unavailable, KeyCombo, KeyComboModel};
use crate::io_failure::IoFailure;
use crate::text::push_str;

verus! {

/// A mouse button.
#[derive(Debug, Clone, Copy, PartialEq, Eq, Hash)]
pub enum MouseButton {
    Left,
    Right,
    Middle,
}

/// One synthetic input event.
#[derive(Debug, PartialEq)]
pub enum InputEvent {
    KeyPress(KeyCombo),
    KeyRelease(KeyCombo),
    MouseButtonPress(MouseButton),
    MouseButtonRelease(MouseButton),
    MouseMoveAbsolute { x: i32, y: i32 },
    MouseMoveRelative { dx: i32, dy: i32 },
    Scroll { dx: i32, dy: i32 },
}

/// The mathematical content of an `InputEvent`.
#[verifier::ext_equal]
pub enum InputEventModel {
    KeyPress(KeyComboModel),
    KeyRelease(KeyComboModel),
    MouseButtonPress(MouseButton),
    MouseButtonRelease(MouseButton),
    MouseMoveAbsolute { x: i32, y: i32 },
    MouseMoveRelative { dx: i32, dy: i32 },
    Scroll { dx: i32, dy: i32 },
}

impl DeepView for InputEvent {
    type V = InputEventModel;

    open spec fn deep_view(&self) -> InputEventModel {
        match self {
            InputEvent::KeyPress(c) => InputEventModel::KeyPress(c.deep_view()),
            InputEvent::KeyRelease(c) => InputEventModel::KeyRelease(c.deep_view()),
            InputEvent::MouseButtonPress(b) => InputEventModel::MouseButtonPress(*b),
            InputEvent::MouseButtonRelease(b) => InputEventModel::MouseButtonRelease(*b),
            InputEvent::MouseMoveAbsolute { x, y } => InputEventModel::MouseMoveAbsolute { x: *x, y: *y },
            InputEvent::MouseMoveRelative { dx, dy } => InputEventModel::MouseMoveRelative { dx: *dx, dy: *dy },
            InputEvent::Scroll { dx, dy } => InputEventModel::Scroll { dx: *dx, dy: *dy },
        }
    }
}

impl Clone for InputEvent {
    fn clone(&self) -> (r: Self)
        ensures
            r.deep_view() == self.deep_view(),
    {
        match self {
            InputEvent::KeyPress(c) => InputEvent::KeyPress(c.clone()),
            InputEvent::KeyRelease(c) => InputEvent::KeyRelease(c.clone()),
            InputEvent::MouseButtonPress(b) => InputEvent::MouseButtonPress(*b),
            InputEvent::MouseButtonRelease(b) => InputEvent::MouseButtonRelease(*b),
            InputEvent::MouseMoveAbsolute { x, y } => InputEvent::MouseMoveAbsolute { x: *x, y: *y },
            InputEvent::MouseMoveRelative { dx, dy } => InputEvent::MouseMoveRelative { dx: *dx, dy: *dy },
            InputEvent::Scroll { dx, dy } => InputEvent::Scroll { dx: *dx, dy: *dy },
        }
    }
}

/// Failures of an input injector.
#[derive(Debug)]
pub enum InjectError {
    NotPermitted(String),
    BackendUnavailable(String),
    Io(IoFailure),
    Unsupported(String),
}

/// The text an injection error is shown with.
pub open spec fn inject_message(e: InjectError) -> Seq<char> {
    match e {
        InjectError::NotPermitted(m) => "input injection not permitted: "@ + m@,
        InjectError::BackendUnavailable(m) => "input injection backend unavailable: "@ + m@,
        InjectError::Io(f) => "I/O error: "@ + f.message@,
        InjectError::Unsupported(m) => "unsupported input operation: "@ + m@,
    }
}

impl InjectError {
    /// The text this error is shown with.
    pub fn message(&self) -> (r: String)
        ensures
            r@ == inject_message(*self),
    {
        let mut m = String::new();
        match self {
            InjectError::NotPermitted(x) => {
                push_str(&mut m, "input injection not permitted: ");
                push_str(&mut m, x.as_str());
            },
            InjectError::BackendUnavailable(x) => {
                push_str(&mut m, "input injection backend unavailable: ");
                push_str(&mut m, x.as_str());
            },
            InjectError::Io(f) => {
                push_str(&mut m, "I/O error: ");
                push_str(&mut m, f.message.as_str());
            },
            InjectError::Unsupported(x) => {
                push_str(&mut m, "unsupported input operation: ");
                push_str(&mut m, x.as_str());
            },
        }
        assert(m@ =~= inject_message(*self));
        m
    }
}

/// The synchronous half of an input injector: what it can promise about
/// window targeting, and its name. Connecting and injecting wait on the
/// system, and are carried out by the application around this library.
pub trait InputInjector {
    /// Whether this backend must focus a window to target it.
    fn requires_focus_steal_for_window_targeting(&self) -> bool;

    /// Human-readable backend name for diagnostics.
    fn backend_name(&self) -> &'static str;
}

/// Stand-in macOS injector: connecting and injecting report the backend as
/// unavailable.
pub struct MacosInputInjector;

impl MacosInputInjector {
    /// Always fails: the macOS backend is not implemented.
    pub fn connect(&mut self) -> (r: Result<(), InjectError>)
        ensures
            r matches Err(InjectError::BackendUnavailable(m)) && m@ == macos_unavailable(),
    {
        Err(InjectError::BackendUnavailable("macOS backend not yet implemented".to_owned()))
    }

    /// Always fails: the macOS backend is not implemented.
    pub fn inject(&self, event: &InputEvent) -> (r: Result<(), InjectError>)
        ensures
            r matches Err(InjectError::BackendUnavailable(m)) && m@ == macos_unavailable(),
    {
        Err(InjectError::BackendUnavailable("macOS backend not yet implemented".to_owned()))
    }
}

impl InputInjector for MacosInputInjector {
    /// Native targeting on macOS needs no focus steal.
    fn requires_focus_steal_for_window_targeting(&self) -> (r: bool)
        ensures
            !r,
    {
        false
    }

    fn backend_name(&self) -> (r: &'static str)
        ensures
            r@ == "macos-stub"@,
    {
        "macos-stub"
    }
}

} // verus!
