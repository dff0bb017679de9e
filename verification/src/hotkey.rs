//! Hotkey vocabulary: key combos, hotkey ids and events, hotkey errors, and
//! the macOS stand-in backend.
use vstd::prelude::*;

use crate::io_failure::IoFailure;
use crate::text::{debug_quoted, debug_str, push_str};

verus! {

/// A keyboard modifier.
#[derive(Debug, Clone, Copy, PartialEq, Eq, Hash)]
pub enum Modifier {
    Ctrl,
    Shift,
    Alt,
    Meta,
}

/// A portable keyboard shortcut combination.
#[derive(Debug, PartialEq, Eq, Hash)]
pub struct KeyCombo {
    pub modifiers: Vec<Modifier>,
    /// Portable key name, e.g. "F9", "Return", "Super_L".
    pub key: String,
}

/// The mathematical content of a `KeyCombo`.
#[verifier::ext_equal]
pub struct KeyComboModel {
    pub modifiers: Seq<Modifier>,
    pub key: Seq<char>,
}

impl DeepView for KeyCombo {
    type V = KeyComboModel;

    open spec fn deep_view(&self) -> KeyComboModel {
        KeyComboModel { modifiers: self.modifiers@, key: self.key@ }
    }
}

/// A copy of a modifier list.
pub fn copy_modifiers(v: &Vec<Modifier>) -> (r: Vec<Modifier>)
    ensures
        r@ == v@,
{
    let mut r: Vec<Modifier> = Vec::new();
    let mut i: usize = 0;
    while i < v.len()
        invariant
            i <= v@.len(),
            r@ == v@.take(i as int),
        decreases v@.len() - i,
    {
        r.push(v[i]);
        i = i + 1;
        assert(r@ =~= v@.take(i as int));
    }
    assert(r@ =~= v@);
    r
}

impl Clone for KeyCombo {
    fn clone(&self) -> (r: Self)
        ensures
            r.deep_view() == self.deep_view(),
    {
        KeyCombo { modifiers: copy_modifiers(&self.modifiers), key: self.key.clone() }
    }
}

/// Identifier a hotkey backend hands out for a registration.
#[derive(Debug, Clone, Copy, PartialEq, Eq, Hash)]
pub struct HotkeyId(pub u64);

/// A hotkey edge.
#[derive(Debug, Clone, Copy, PartialEq, Eq)]
pub enum HotkeyEvent {
    Pressed,
    Released,
}

/// Failures of a hotkey backend.
#[derive(Debug)]
pub enum HotkeyError {
    RegistrationFailed(String),
    AlreadyRegistered(KeyCombo),
    BackendUnavailable(String),
    Io(IoFailure),
}

/// A modifier's name, as its derived `Debug` renders it.
pub open spec fn modifier_debug(m: Modifier) -> Seq<char> {
    match m {
        Modifier::Ctrl => "Ctrl"@,
        Modifier::Shift => "Shift"@,
        Modifier::Alt => "Alt"@,
        Modifier::Meta => "Meta"@,
    }
}

/// A modifier list as `Debug` renders a slice: `[Ctrl, Alt]`.
pub open spec fn modifiers_debug(ms: Seq<Modifier>) -> Seq<char> {
    "["@ + modifiers_debug_items(ms) + "]"@
}

/// The items of a modifier list, separated by `, `.
pub open spec fn modifiers_debug_items(ms: Seq<Modifier>) -> Seq<char>
    decreases ms.len(),
{
    if ms.len() == 0 {
        Seq::empty()
    } else if ms.len() == 1 {
        modifier_debug(ms[0])
    } else {
        modifiers_debug_items(ms.drop_last()) + ", "@ + modifier_debug(ms.last())
    }
}

/// A key combo as its derived `Debug` renders it:
/// `KeyCombo { modifiers: [Ctrl], key: "A" }`.
pub open spec fn combo_debug(c: KeyComboModel) -> Seq<char> {
    "KeyCombo { modifiers: "@ + modifiers_debug(c.modifiers) + ", key: "@ + debug_quoted(c.key) + " }"@
}

fn push_modifier_debug(s: &mut String, m: Modifier)
    ensures
        final(s)@ == old(s)@ + modifier_debug(m),
{
    match m {
        Modifier::Ctrl => push_str(s, "Ctrl"),
        Modifier::Shift => push_str(s, "Shift"),
        Modifier::Alt => push_str(s, "Alt"),
        Modifier::Meta => push_str(s, "Meta"),
    }
}

fn push_combo_debug(s: &mut String, c: &KeyCombo)
    ensures
        final(s)@ == old(s)@ + combo_debug(c.deep_view()),
{
    push_str(s, "KeyCombo { modifiers: ");
    push_str(s, "[");
    let ghost start = s@;
    let mut i: usize = 0;
    while i < c.modifiers.len()
        invariant
            i <= c.modifiers@.len(),
            s@ == start + modifiers_debug_items(c.modifiers@.take(i as int)),
        decreases c.modifiers@.len() - i,
    {
        assert(c.modifiers@.take(i + 1).drop_last() =~= c.modifiers@.take(i as int));
        if i > 0 {
            push_str(s, ", ");
        }
        push_modifier_debug(s, c.modifiers[i]);
        i = i + 1;
        assert(s@ =~= start + modifiers_debug_items(c.modifiers@.take(i as int)));
    }
    assert(c.modifiers@.take(c.modifiers@.len() as int) =~= c.modifiers@);
    push_str(s, "]");
    push_str(s, ", key: ");
    let quoted = debug_str(c.key.as_str());
    push_str(s, quoted.as_str());
    push_str(s, " }");
    assert(s@ =~= old(s)@ + combo_debug(c.deep_view()));
}

/// The text a hotkey error is shown with.
pub open spec fn hotkey_message(e: HotkeyError) -> Seq<char> {
    match e {
        HotkeyError::RegistrationFailed(m) => "hotkey registration failed: "@ + m@,
        HotkeyError::AlreadyRegistered(c) => "hotkey already registered: "@ + combo_debug(c.deep_view()),
        HotkeyError::BackendUnavailable(m) => "hotkey backend unavailable: "@ + m@,
        HotkeyError::Io(f) => "I/O error: "@ + f.message@,
    }
}

impl HotkeyError {
    /// The text this error is shown with.
    pub fn message(&self) -> (r: String)
        ensures
            r@ == hotkey_message(*self),
    {
        let mut m = String::new();
        match self {
            HotkeyError::RegistrationFailed(x) => {
                push_str(&mut m, "hotkey registration failed: ");
                push_str(&mut m, x.as_str());
            },
            HotkeyError::AlreadyRegistered(c) => {
                push_str(&mut m, "hotkey already registered: ");
                push_combo_debug(&mut m, c);
            },
            HotkeyError::BackendUnavailable(x) => {
                push_str(&mut m, "hotkey backend unavailable: ");
                push_str(&mut m, x.as_str());
            },
            HotkeyError::Io(f) => {
                push_str(&mut m, "I/O error: ");
                push_str(&mut m, f.message.as_str());
            },
        }
        assert(m@ =~= hotkey_message(*self));
        m
    }
}

/// The receiving end of a std channel, carried opaquely.
#[verifier::external_type_specification]
#[verifier::external_body]
#[verifier::reject_recursive_types(T)]
pub struct ExReceiver<T>(std::sync::mpsc::Receiver<T>);

/// `std::sync::mpsc::channel`, keeping only the receiving end: the sending
/// end is dropped on return, so the receiver reports a closed channel to any
/// caller. The receiver is opaque here; nothing is stated of it.
#[verifier::external_body]
fn closed_receiver<T>() -> std::sync::mpsc::Receiver<T> {
    let (_tx, rx) = std::sync::mpsc::channel();
    rx
}

/// Hands out the receiver held in `slot` on the first call; every later
/// call gets a receiver whose channel is already closed.
pub fn take_receiver<T>(slot: &mut Option<std::sync::mpsc::Receiver<T>>) -> (r: std::sync::mpsc::Receiver<T>)
    ensures
        *final(slot) is None,
        *old(slot) matches Some(x) ==> r == x,
{
    match slot.take() {
        Some(rx) => rx,
        None => closed_receiver(),
    }
}

/// The synchronous half of a hotkey backend: its event stream and its name.
/// Registering and unregistering wait on the desktop, and are carried out
/// by the application around this library.
pub trait HotkeyBackend {
    /// Single event stream for all registrations on this backend instance.
    fn subscribe(&self) -> std::sync::mpsc::Receiver<(HotkeyId, HotkeyEvent)>;

    /// Human-readable backend name for diagnostics.
    fn backend_name(&self) -> &'static str;
}

/// The message every macOS stand-in operation fails with.
pub open spec fn macos_unavailable() -> Seq<char> {
    "macOS backend not yet implemented"@
}

/// Stand-in macOS hotkey backend: every operation reports the backend as
/// unavailable.
pub struct MacosHotkeyBackend;

impl MacosHotkeyBackend {
    /// Always fails: the macOS backend is not implemented.
    pub fn register(&self, action_name: &str, preferred: Option<&KeyCombo>) -> (r: Result<(HotkeyId, KeyCombo), HotkeyError>)
        ensures
            r matches Err(HotkeyError::BackendUnavailable(m)) && m@ == macos_unavailable(),
    {
        Err(HotkeyError::BackendUnavailable("macOS backend not yet implemented".to_owned()))
    }

    /// Always fails: the macOS backend is not implemented.
    pub fn unregister(&self, id: HotkeyId) -> (r: Result<(), HotkeyError>)
        ensures
            r matches Err(HotkeyError::BackendUnavailable(m)) && m@ == macos_unavailable(),
    {
        Err(HotkeyError::BackendUnavailable("macOS backend not yet implemented".to_owned()))
    }
}

impl HotkeyBackend for MacosHotkeyBackend {
    /// A receiver whose channel is already closed.
    fn subscribe(&self) -> std::sync::mpsc::Receiver<(HotkeyId, HotkeyEvent)> {
        closed_receiver()
    }

    fn backend_name(&self) -> (r: &'static str)
        ensures
            r@ == "macos-stub"@,
    {
        "macos-stub"
    }
}

} // verus!
