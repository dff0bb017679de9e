//! Window vocabulary: handles, window descriptions and window errors.
use vstd::prelude::*;

use crate::hotkey::macos_unavailable;
use crate::io_failure::IoFailure;
use crate::text::push_str;

verus! {

/// Opaque backend identifier of a window, e.g. a KWin UUID.
#[derive(Debug, PartialEq, Eq, Hash)]
pub struct WindowHandle(pub String);

impl Clone for WindowHandle {
    fn clone(&self) -> (r: Self)
        ensures
            r.0@ == self.0@,
    {
        WindowHandle(self.0.clone())
    }
}

/// One window on the desktop.
#[derive(Debug, PartialEq)]
pub struct WindowInfo {
    pub handle: WindowHandle,
    pub pid: Option<u32>,
    pub process_name: Option<String>,
    pub title: String,
}

/// Failures of a window locator.
#[derive(Debug)]
pub enum WindowError {
    BackendUnavailable(String),
    NotFound,
    Io(IoFailure),
}

/// The text a window error is shown with.
pub open spec fn window_message(e: WindowError) -> Seq<char> {
    match e {
        WindowError::BackendUnavailable(m) => "window backend unavailable: "@ + m@,
        WindowError::NotFound => "window not found"@,
        WindowError::Io(f) => "I/O error: "@ + f.message@,
    }
}

impl WindowError {
    /// The text this error is shown with.
    pub fn message(&self) -> (r: String)
        ensures
            r@ == window_message(*self),
    {
        let mut m = String::new();
        match self {
            WindowError::BackendUnavailable(x) => {
                push_str(&mut m, "window backend unavailable: ");
                push_str(&mut m, x.as_str());
            },
            WindowError::NotFound => push_str(&mut m, "window not found"),
            WindowError::Io(f) => {
                push_str(&mut m, "I/O error: ");
                push_str(&mut m, f.message.as_str());
            },
        }
        assert(m@ =~= window_message(*self));
        m
    }
}

/// Stand-in macOS window locator: every query reports the backend as
/// unavailable.
pub struct MacosWindowLocator;

impl MacosWindowLocator {
    /// Always fails: the macOS backend is not implemented.
    pub fn list_windows(&self) -> (r: Result<Vec<WindowInfo>, WindowError>)
        ensures
            r matches Err(WindowError::BackendUnavailable(m)) && m@ == macos_unavailable(),
    {
        Err(WindowError::BackendUnavailable("macOS backend not yet implemented".to_owned()))
    }

    /// Always fails: the macOS backend is not implemented.
    pub fn focused_window(&self) -> (r: Result<Option<WindowHandle>, WindowError>)
        ensures
            r matches Err(WindowError::BackendUnavailable(m)) && m@ == macos_unavailable(),
    {
        Err(WindowError::BackendUnavailable("macOS backend not yet implemented".to_owned()))
    }

    /// Always fails: the macOS backend is not implemented.
    pub fn activate_window(&self, handle: &WindowHandle) -> (r: Result<(), WindowError>)
        ensures
            r matches Err(WindowError::BackendUnavailable(m)) && m@ == macos_unavailable(),
    {
        Err(WindowError::BackendUnavailable("macOS backend not yet implemented".to_owned()))
    }
}

} // verus!
