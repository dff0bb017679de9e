//! The runner's decisions: which window a window-scoped profile targets,
//! how long a repeat action waits, what a macro step injects, which profile
//! a hotkey event concerns, and the per-profile toggle/debounce state
//! machine. The event loop that performs the waiting, injecting and window
//! activation drives these from outside, feeding each outcome back in.
use vstd::prelude::*;

use crate::action::{ClickPosition, Jitter, MacroStep, MacroStepModel};
use crate::hotkey::{hotkey_message, HotkeyError, HotkeyEvent, HotkeyId, KeyCombo};
use crate::input::{InputEvent, InputEventModel, MouseButton};
use crate::profile::{Profile, ProfileModel};
use crate::text::{contains_seq, debug_quoted, debug_str, push_str, str_contains, str_eq};
use crate::window::{WindowHandle, WindowInfo};

verus! {

// ---------------------------------------------------------------------------
// Window resolution
// ---------------------------------------------------------------------------

/// `w` belongs to the process named `process_name`.
pub open spec fn process_matches(w: WindowInfo, process_name: Seq<char>) -> bool {
    w.process_name matches Some(p) && p@ == process_name
}

/// `w` is a candidate target: right process, and its title contains the hint
/// (every title contains the empty hint).
pub open spec fn is_candidate(w: WindowInfo, process_name: Seq<char>, hint: Seq<char>) -> bool {
    process_matches(w, process_name) && contains_seq(w.title@, hint)
}

/// `w` is a candidate whose handle is `id`.
pub open spec fn is_exact_candidate(w: WindowInfo, process_name: Seq<char>, hint: Seq<char>, id: Seq<char>) -> bool {
    is_candidate(w, process_name, hint) && w.handle.0@ == id
}

/// Index of the first candidate window at or after `j`.
pub open spec fn first_candidate_from(ws: Seq<WindowInfo>, process_name: Seq<char>, hint: Seq<char>, j: int) -> Option<int>
    decreases ws.len() - j,
{
    if j < 0 || j >= ws.len() {
        None
    } else if is_candidate(ws[j], process_name, hint) {
        Some(j)
    } else {
        first_candidate_from(ws, process_name, hint, j + 1)
    }
}

/// Index of the first candidate window at or after `j` whose handle is `id`.
pub open spec fn first_exact_from(ws: Seq<WindowInfo>, process_name: Seq<char>, hint: Seq<char>, id: Seq<char>, j: int) -> Option<int>
    decreases ws.len() - j,
{
    if j < 0 || j >= ws.len() {
        None
    } else if is_exact_candidate(ws[j], process_name, hint, id) {
        Some(j)
    } else {
        first_exact_from(ws, process_name, hint, id, j + 1)
    }
}

proof fn lemma_first_candidate_from(ws: Seq<WindowInfo>, process_name: Seq<char>, hint: Seq<char>, j: int)
    requires
        0 <= j,
    ensures
        first_candidate_from(ws, process_name, hint, j) matches Some(k) ==> j <= k < ws.len() && is_candidate(
            ws[k],
            process_name,
            hint,
        ),
        first_candidate_from(ws, process_name, hint, j) is None ==> forall|k: int|
            j <= k < ws.len() ==> !is_candidate(#[trigger] ws[k], process_name, hint),
    decreases ws.len() - j,
{
    if j < ws.len() && !is_candidate(ws[j], process_name, hint) {
        lemma_first_candidate_from(ws, process_name, hint, j + 1);
    }
}

proof fn lemma_first_exact_from(ws: Seq<WindowInfo>, process_name: Seq<char>, hint: Seq<char>, id: Seq<char>, j: int)
    requires
        0 <= j,
    ensures
        first_exact_from(ws, process_name, hint, id, j) matches Some(k) ==> j <= k < ws.len() && is_exact_candidate(
            ws[k],
            process_name,
            hint,
            id,
        ),
    decreases ws.len() - j,
{
    if j < ws.len() && !is_exact_candidate(ws[j], process_name, hint, id) {
        lemma_first_exact_from(ws, process_name, hint, id, j + 1);
    }
}

/// The window-resolution policy: among the candidates (process name, then
/// title hint whenever the hint is non-empty), prefer the one whose handle
/// is the stored id, else the first; no candidate at all means no target.
pub open spec fn resolved_window(ws: Seq<WindowInfo>, process_name: Seq<char>, hint: Seq<char>, id: Option<Seq<char>>) -> Option<Seq<char>> {
    let exact = match id {
        Some(h) => first_exact_from(ws, process_name, hint, h, 0),
        None => None,
    };
    match exact {
        Some(k) => Some(ws[k].handle.0@),
        None => match first_candidate_from(ws, process_name, hint, 0) {
            Some(k) => Some(ws[k].handle.0@),
            None => None,
        },
    }
}

proof fn lemma_contains_empty(s: Seq<char>)
    ensures
        contains_seq(s, Seq::<char>::empty()),
{
    assert(s.subrange(0, 0) =~= Seq::<char>::empty());
    assert(crate::text::occurs_at(s, Seq::<char>::empty(), 0));
}

/// Whether `w` is a candidate target.
fn check_candidate(w: &WindowInfo, process_name: &str, window_title_hint: &str) -> (r: bool)
    ensures
        r == is_candidate(*w, process_name@, window_title_hint@),
{
    let process_ok = match &w.process_name {
        Some(p) => str_eq(p.as_str(), process_name),
        None => false,
    };
    if !process_ok {
        return false;
    }
    if window_title_hint.is_empty() {
        proof {
            assert(window_title_hint@ =~= Seq::<char>::empty());
            lemma_contains_empty(w.title@);
        }
        return true;
    }
    str_contains(w.title.as_str(), window_title_hint)
}

/// Picks the window a window-scoped profile acts on, per `resolved_window`.
pub fn resolve_window(
    windows: &[WindowInfo],
    process_name: &str,
    window_title_hint: &str,
    backend_hint_id: Option<&str>,
) -> (r: Option<WindowHandle>)
    ensures
        match resolved_window(
            windows@,
            process_name@,
            window_title_hint@,
            match backend_hint_id {
                Some(h) => Some(h@),
                None => None,
            },
        ) {
            Some(h) => r matches Some(w) && w.0@ == h,
            None => r is None,
        },
{
    let ghost ws = windows@;
    let ghost pn = process_name@;
    let ghost hint = window_title_hint@;
    let mut first: Option<usize> = None;
    let mut exact: Option<usize> = None;
    let mut i: usize = 0;
    while i < windows.len()
        invariant
            ws == windows@,
            pn == process_name@,
            hint == window_title_hint@,
            i <= ws.len(),
            first matches Some(k) ==> first_candidate_from(ws, pn, hint, 0) == Some(k as int),
            first is None ==> first_candidate_from(ws, pn, hint, 0) == first_candidate_from(ws, pn, hint, i as int),
            backend_hint_id matches Some(h) ==> (exact matches Some(k) ==> first_exact_from(ws, pn, hint, h@, 0) == Some(k as int)),
            backend_hint_id matches Some(h) ==> (exact is None ==> first_exact_from(ws, pn, hint, h@, 0) == first_exact_from(ws, pn, hint, h@, i as int)),
            backend_hint_id is None ==> exact is None,
        decreases ws.len() - i,
    {
        let w = &windows[i];
        let cand = check_candidate(w, process_name, window_title_hint);
        if cand {
            if first.is_none() {
                first = Some(i);
            }
        }
        if let Some(h) = backend_hint_id {
            let same = str_eq(w.handle.0.as_str(), h);
            assert(same == (ws[i as int].handle.0@ == h@));
            if cand && same {
                if exact.is_none() {
                    exact = Some(i);
                }
            }
        }
        i = i + 1;
    }
    proof {
        lemma_first_candidate_from(ws, pn, hint, 0);
        if let Some(h) = backend_hint_id {
            lemma_first_exact_from(ws, pn, hint, h@, 0);
        }
    }
    match exact {
        Some(k) => Some(windows[k].handle.clone()),
        None => match first {
            Some(k) => Some(windows[k].handle.clone()),
            None => None,
        },
    }
}

/// The resolved target always belongs to the profile's process and has a
/// title containing the hint; and a target exists exactly when some window
/// does.
pub proof fn law_resolved_window_is_a_candidate(
    ws: Seq<WindowInfo>,
    process_name: Seq<char>,
    hint: Seq<char>,
    id: Option<Seq<char>>,
)
    ensures
        resolved_window(ws, process_name, hint, id) matches Some(h) ==> exists|i: int|
            0 <= i < ws.len() && is_candidate(#[trigger] ws[i], process_name, hint) && ws[i].handle.0@ == h,
        resolved_window(ws, process_name, hint, id) is None <==> forall|i: int|
            0 <= i < ws.len() ==> !is_candidate(#[trigger] ws[i], process_name, hint),
{
    lemma_first_candidate_from(ws, process_name, hint, 0);
    if let Some(h) = id {
        lemma_first_exact_from(ws, process_name, hint, h, 0);
        if let Some(k) = first_exact_from(ws, process_name, hint, h, 0) {
            assert(is_candidate(ws[k], process_name, hint));
        }
    }
    if let Some(k) = first_candidate_from(ws, process_name, hint, 0) {
        assert(is_candidate(ws[k], process_name, hint));
    }
}

// ---------------------------------------------------------------------------
// Repeat timing
// ---------------------------------------------------------------------------

/// A random value in `lo ..= hi`, from `fastrand::i64`.
/// Trusted: fastrand documents `i64(range)` as returning a value in the
/// given (inclusive) range and panicking only on an empty range, which
/// `lo <= hi` rules out. Nothing is said of which value.
#[verifier::external_body]
fn uniform_in(lo: i64, hi: i64) -> (r: i64)
    requires
        lo <= hi,
    ensures
        lo <= r <= hi,
{
    fastrand::i64(lo..=hi)
}

/// The wait for an interval moved by `offset`, never below zero.
pub open spec fn jittered_delay(interval_ms: u64, offset: int) -> int {
    if interval_ms + offset < 0 {
        0
    } else {
        interval_ms + offset
    }
}

/// The wait, in milliseconds, for an interval moved by a given offset.
pub fn delay_with_offset(interval_ms: u64, offset: i64) -> (r: u64)
    requires
        interval_ms + offset <= i64::MAX,
        interval_ms <= i64::MAX,
    ensures
        r as int == jittered_delay(interval_ms, offset as int),
{
    let total = interval_ms as i64 + offset;
    if total < 0 {
        0
    } else {
        total as u64
    }
}

/// Milliseconds to wait before the next repeat: exactly `interval_ms` without
/// jitter (or with a zero range), otherwise `interval_ms` moved by a random
/// offset of at most `range_ms` either way, clamped at zero.
pub fn compute_delay(interval_ms: u64, jitter: &Jitter) -> (r: u64)
    requires
        jitter matches Jitter::Uniform { range_ms } ==> (range_ms == 0 || (range_ms <= i64::MAX
            && interval_ms + *range_ms <= i64::MAX)),
    ensures
        jitter matches Jitter::Disabled ==> r == interval_ms,
        jitter matches Jitter::Uniform { range_ms } ==> (range_ms == 0 ==> r == interval_ms),
        jitter matches Jitter::Uniform { range_ms } ==> (range_ms > 0 ==> exists|offset: int|
            -(range_ms as int) <= offset <= range_ms as int && r as int == jittered_delay(interval_ms, offset)),
{
    match jitter {
        Jitter::Disabled => interval_ms,
        Jitter::Uniform { range_ms } => {
            if *range_ms == 0 {
                interval_ms
            } else {
                let bound = *range_ms as i64;
                let offset = uniform_in(-bound, bound);
                let r = delay_with_offset(interval_ms, offset);
                assert(r as int == jittered_delay(interval_ms, offset as int));
                r
            }
        },
    }
}

/// With a jitter range no larger than the interval (which validation
/// enforces), the computed wait is never clamped: it is exactly the
/// interval plus the offset, and so never negative.
pub proof fn law_valid_jitter_is_never_clamped(interval_ms: u64, range_ms: u64, offset: int)
    requires
        range_ms <= interval_ms,
        -(range_ms as int) <= offset <= range_ms,
    ensures
        jittered_delay(interval_ms, offset) == interval_ms + offset,
        interval_ms - range_ms <= jittered_delay(interval_ms, offset) <= interval_ms + range_ms,
{
}

// ---------------------------------------------------------------------------
// Macro steps
// ---------------------------------------------------------------------------

/// The wait before a macro step acts.
pub open spec fn step_delay(step: MacroStepModel) -> u32 {
    match step {
        MacroStepModel::KeyPress { delay_ms, .. } => delay_ms,
        MacroStepModel::MouseClick { delay_ms, .. } => delay_ms,
        MacroStepModel::Drag { delay_ms, .. } => delay_ms,
        MacroStepModel::Scroll { delay_ms, .. } => delay_ms,
    }
}

/// A move to `p` when it is a fixed position; nothing for the cursor.
pub open spec fn move_to(p: ClickPosition) -> Seq<InputEventModel> {
    match p {
        ClickPosition::Fixed { x, y } => seq![InputEventModel::MouseMoveAbsolute { x, y }],
        ClickPosition::AtCursor => Seq::empty(),
    }
}

/// The events a macro step injects, in order: a key step taps its combo; a
/// click moves (unless at the cursor), presses and releases its button; a
/// drag moves to its start, presses the left button, moves to its end and
/// releases; a scroll scrolls.
pub open spec fn step_events(step: MacroStepModel) -> Seq<InputEventModel> {
    match step {
        MacroStepModel::KeyPress { combo, .. } => seq![
            InputEventModel::KeyPress(combo),
            InputEventModel::KeyRelease(combo),
        ],
        MacroStepModel::MouseClick { button, position, .. } => move_to(position) + seq![
            InputEventModel::MouseButtonPress(button),
            InputEventModel::MouseButtonRelease(button),
        ],
        MacroStepModel::Drag { from, to, .. } => move_to(from) + seq![
            InputEventModel::MouseButtonPress(MouseButton::Left),
        ] + move_to(to) + seq![InputEventModel::MouseButtonRelease(MouseButton::Left)],
        MacroStepModel::Scroll { dx, dy, .. } => seq![InputEventModel::Scroll { dx, dy }],
    }
}

/// The wait before a macro step acts.
pub fn macro_step_delay_ms(step: &MacroStep) -> (r: u32)
    ensures
        r == step_delay(step.deep_view()),
{
    match step {
        MacroStep::KeyPress { delay_ms, .. } => *delay_ms,
        MacroStep::MouseClick { delay_ms, .. } => *delay_ms,
        MacroStep::Drag { delay_ms, .. } => *delay_ms,
        MacroStep::Scroll { delay_ms, .. } => *delay_ms,
    }
}

fn push_move_to(events: &mut Vec<InputEvent>, p: ClickPosition)
    ensures
        final(events).deep_view() == old(events).deep_view() + move_to(p),
{
    let ghost before = events.deep_view();
    if let ClickPosition::Fixed { x, y } = p {
        events.push(InputEvent::MouseMoveAbsolute { x, y });
    }
    assert(events.deep_view() =~= before + move_to(p));
}

fn push_event(events: &mut Vec<InputEvent>, e: InputEvent)
    ensures
        final(events).deep_view() == old(events).deep_view().push(e.deep_view()),
{
    let ghost ev = e.deep_view();
    events.push(e);
    assert(events.deep_view() =~= old(events).deep_view().push(ev));
}

/// The events a macro step injects, per `step_events`.
pub fn macro_step_events(step: &MacroStep) -> (r: Vec<InputEvent>)
    ensures
        r.deep_view() == step_events(step.deep_view()),
{
    let mut events: Vec<InputEvent> = Vec::new();
    match step {
        MacroStep::KeyPress { combo, .. } => {
            push_event(&mut events, InputEvent::KeyPress(combo.clone()));
            push_event(&mut events, InputEvent::KeyRelease(combo.clone()));
        },
        MacroStep::MouseClick { button, position, .. } => {
            push_move_to(&mut events, *position);
            push_event(&mut events, InputEvent::MouseButtonPress(*button));
            push_event(&mut events, InputEvent::MouseButtonRelease(*button));
        },
        MacroStep::Drag { from, to, .. } => {
            push_move_to(&mut events, *from);
            push_event(&mut events, InputEvent::MouseButtonPress(MouseButton::Left));
            push_move_to(&mut events, *to);
            push_event(&mut events, InputEvent::MouseButtonRelease(MouseButton::Left));
        },
        MacroStep::Scroll { dx, dy, .. } => {
            push_event(&mut events, InputEvent::Scroll { dx: *dx, dy: *dy });
        },
    }
    assert(events.deep_view() =~= step_events(step.deep_view()));
    events
}

/// Every key or button a macro step presses, it releases later in the same
/// step: a macro never leaves a key or button held between steps.
pub proof fn law_step_releases_what_it_presses(step: MacroStepModel)
    ensures
        forall|i: int| 0 <= i < step_events(step).len() ==> (#[trigger] step_events(step)[i] matches InputEventModel::KeyPress(c)
            ==> exists|j: int| i < j < step_events(step).len() && step_events(step)[j] == InputEventModel::KeyRelease(c)),
        forall|i: int| 0 <= i < step_events(step).len() ==> (#[trigger] step_events(step)[i] matches InputEventModel::MouseButtonPress(b)
            ==> exists|j: int| i < j < step_events(step).len() && step_events(step)[j] == InputEventModel::MouseButtonRelease(b)),
{
    let ev = step_events(step);
    match step {
        MacroStepModel::KeyPress { combo, .. } => {
            assert(ev[1] == InputEventModel::KeyRelease(combo));
        },
        MacroStepModel::MouseClick { button, position, .. } => {
            let m = move_to(position);
            assert(ev[m.len() as int + 1] == InputEventModel::MouseButtonRelease(button));
            assert forall|i: int| 0 <= i < ev.len() implies !(#[trigger] ev[i] is KeyPress) by {
                if i < m.len() {
                    assert(ev[i] == m[i]);
                }
            }
            assert forall|i: int| 0 <= i < ev.len() && (#[trigger] ev[i] is MouseButtonPress) implies i == m.len() by {
                if i < m.len() {
                    assert(ev[i] == m[i]);
                }
            }
        },
        MacroStepModel::Drag { from, to, .. } => {
            let m1 = move_to(from);
            let m2 = move_to(to);
            assert(ev[ev.len() - 1] == InputEventModel::MouseButtonRelease(MouseButton::Left));
            assert forall|i: int| 0 <= i < ev.len() implies !(#[trigger] ev[i] is KeyPress) by {
                if i < m1.len() {
                    assert(ev[i] == m1[i]);
                } else if m1.len() < i < m1.len() + 1 + m2.len() {
                    assert(ev[i] == m2[i - m1.len() - 1]);
                }
            }
            assert forall|i: int| 0 <= i < ev.len() && (#[trigger] ev[i] is MouseButtonPress) implies i == m1.len() by {
                if i < m1.len() {
                    assert(ev[i] == m1[i]);
                } else if m1.len() < i < m1.len() + 1 + m2.len() {
                    assert(ev[i] == m2[i - m1.len() - 1]);
                }
            }
        },
        MacroStepModel::Scroll { .. } => {},
    }
}


// ---------------------------------------------------------------------------
// Hotkey event dispatch
// ---------------------------------------------------------------------------

/// The profile a hotkey event toggles: presses only, and for an id handed
/// out more than once the latest registration wins (as inserting into a map
/// in registration order would leave it).
pub open spec fn event_target(registered: Seq<HotkeyId>, id: HotkeyId, event: HotkeyEvent) -> Option<int> {
    if event is Released {
        None
    } else if exists|i: int| 0 <= i < registered.len() && registered[i] == id {
        Some(choose|i: int| 0 <= i < registered.len() && registered[i] == id && forall|j: int|
            i < j < registered.len() ==> registered[j] != id)
    } else {
        None
    }
}

/// Which profile, if any, a hotkey event toggles. `registered[i]` is the id
/// the backend returned for profile `i`.
pub fn profile_for_event(registered: &Vec<HotkeyId>, id: HotkeyId, event: HotkeyEvent) -> (r: Option<usize>)
    ensures
        event is Released ==> r is None,
        event is Pressed ==> (r matches Some(k) ==> k < registered@.len() && registered@[k as int] == id
            && forall|j: int| k < j < registered@.len() ==> registered@[j] != id),
        event is Pressed ==> (r is None ==> forall|j: int| 0 <= j < registered@.len() ==> registered@[j] != id),
        r matches Some(k) ==> event_target(registered@, id, event) == Some(k as int),
        r is None ==> event_target(registered@, id, event) is None,
{
    if let HotkeyEvent::Released = event {
        return None;
    }
    let mut i: usize = registered.len();
    while i > 0
        invariant
            i <= registered@.len(),
            event is Pressed,
            forall|j: int| i <= j < registered@.len() ==> registered@[j] != id,
        decreases i,
    {
        i = i - 1;
        if registered[i].0 == id.0 {
            proof {
                let c = choose|c: int| 0 <= c < registered@.len() && registered@[c] == id && forall|j: int|
                    c < j < registered@.len() ==> registered@[j] != id;
                assert(0 <= i < registered@.len() && registered@[i as int] == id);
                if c < i {
                    assert(registered@[i as int] != id);
                } else if c > i {
                    assert(registered@[c] != id);
                }
            }
            return Some(i);
        }
    }
    None
}

// ---------------------------------------------------------------------------
// Per-profile toggle state
// ---------------------------------------------------------------------------

/// A profile's runtime state, kept by the runner alongside its task. A
/// stopped profile holds no prior focus.
#[derive(Debug)]
pub struct ProfileState {
    running: bool,
    last_toggle_at: Option<u64>,
    prior_focus: Option<WindowHandle>,
}

/// The content of a `ProfileState`: whether its task runs, the time (in
/// microseconds on the runner's monotonic clock) of its last toggle, and the
/// window focused before a window-scoped start.
pub struct ProfileStateModel {
    pub running: bool,
    pub last_toggle_at: Option<u64>,
    pub prior_focus: Option<Seq<char>>,
}

/// What the runner does for a hotkey press.
#[derive(Debug)]
pub enum PressAction {
    /// The press fell within the debounce window: nothing happens.
    Ignore,
    /// Toggle off: cancel the task, then re-focus `restore` if given.
    Stop { restore: Option<WindowHandle> },
    /// Try to toggle on: first re-focus `restore_first` if given (left over
    /// from a task that finished by itself), then resolve the scope and
    /// start; only a start that succeeds is recorded, with `mark_started`.
    Start { restore_first: Option<WindowHandle> },
}

/// The content of a `PressAction`.
pub enum PressActionModel {
    Ignore,
    Stop { restore: Option<Seq<char>> },
    Start { restore_first: Option<Seq<char>> },
}

/// An optional window handle, as its id.
pub open spec fn handle_model(h: Option<WindowHandle>) -> Option<Seq<char>> {
    match h {
        Some(w) => Some(w.0@),
        None => None,
    }
}

impl DeepView for ProfileState {
    type V = ProfileStateModel;

    closed spec fn deep_view(&self) -> ProfileStateModel {
        ProfileStateModel {
            running: self.running,
            last_toggle_at: self.last_toggle_at,
            prior_focus: handle_model(self.prior_focus),
        }
    }
}

impl DeepView for PressAction {
    type V = PressActionModel;

    open spec fn deep_view(&self) -> PressActionModel {
        match self {
            PressAction::Ignore => PressActionModel::Ignore,
            PressAction::Stop { restore } => PressActionModel::Stop { restore: handle_model(*restore) },
            PressAction::Start { restore_first } => PressActionModel::Start { restore_first: handle_model(*restore_first) },
        }
    }
}

/// A stopped profile holds no prior focus.
pub open spec fn state_wf(s: ProfileStateModel) -> bool {
    !s.running ==> s.prior_focus is None
}

/// Time since the last toggle; a clock reading before it counts as no time.
pub open spec fn elapsed_us(last: u64, now_us: u64) -> int {
    if now_us >= last {
        now_us - last
    } else {
        0
    }
}

/// A press at `now_us` is inside the profile's debounce window of
/// `debounce_ms` milliseconds.
pub open spec fn is_debounced(s: ProfileStateModel, debounce_ms: u32, now_us: u64) -> bool {
    s.last_toggle_at matches Some(last) && elapsed_us(last, now_us) < debounce_ms * 1000
}

/// The press transition. Inside the debounce window nothing changes. A
/// running task that finished by itself counts as already stopped: its
/// prior focus is handed back to be restored before starting again. A
/// running profile stops, records the toggle time and hands back its prior
/// focus; a stopped one is told to try to start, and its toggle time stays
/// as it was until the start succeeds.
pub open spec fn press_transition(s: ProfileStateModel, debounce_ms: u32, now_us: u64, task_finished: bool) -> (ProfileStateModel, PressActionModel) {
    if is_debounced(s, debounce_ms, now_us) {
        (s, PressActionModel::Ignore)
    } else if s.running && !task_finished {
        (
            ProfileStateModel { running: false, last_toggle_at: Some(now_us), prior_focus: None },
            PressActionModel::Stop { restore: s.prior_focus },
        )
    } else {
        (
            ProfileStateModel { running: false, last_toggle_at: s.last_toggle_at, prior_focus: None },
            PressActionModel::Start { restore_first: if s.running { s.prior_focus } else { None } },
        )
    }
}

/// The start transition, once the task has been spawned at `now_us` (and,
/// for a window scope, the target activated with `prior` focused before
/// it): the toggle time is recorded only now.
pub open spec fn start_transition(s: ProfileStateModel, prior: Option<Seq<char>>, now_us: u64) -> ProfileStateModel {
    ProfileStateModel { running: true, last_toggle_at: Some(now_us), prior_focus: prior }
}

impl ProfileState {
    #[verifier::type_invariant]
    closed spec fn wf(&self) -> bool {
        state_wf(self.deep_view())
    }

    /// A profile that has never been toggled.
    pub fn new() -> (r: Self)
        ensures
            r.deep_view() == (ProfileStateModel { running: false, last_toggle_at: None, prior_focus: None }),
    {
        ProfileState { running: false, last_toggle_at: None, prior_focus: None }
    }

    /// Whether the profile's task runs.
    pub fn is_running(&self) -> (r: bool)
        ensures
            r == self.deep_view().running,
    {
        self.running
    }

    /// The time of the last toggle, if any.
    pub fn last_toggle_at(&self) -> (r: Option<u64>)
        ensures
            r == self.deep_view().last_toggle_at,
    {
        self.last_toggle_at
    }

    /// The window focused before a window-scoped start, if held.
    pub fn prior_focus(&self) -> (r: Option<&WindowHandle>)
        ensures
            handle_model(match r {
                Some(h) => Some(*h),
                None => None,
            }) == self.deep_view().prior_focus,
    {
        self.prior_focus.as_ref()
    }

    /// Decides what a hotkey press at `now_us` does, per `press_transition`.
    /// `task_finished` reports whether the profile's task has already ended
    /// on its own (a non-looping macro that ran its steps).
    pub fn on_press(&mut self, debounce_ms: u32, now_us: u64, task_finished: bool) -> (r: PressAction)
        ensures
            state_wf(old(self).deep_view()),
            (final(self).deep_view(), r.deep_view()) == press_transition(old(self).deep_view(), debounce_ms, now_us, task_finished),
    {
        proof {
            use_type_invariant(&*self);
        }
        if let Some(last) = self.last_toggle_at {
            let elapsed: u64 = if now_us >= last { now_us - last } else { 0 };
            if elapsed < (debounce_ms as u64) * 1000 {
                return PressAction::Ignore;
            }
        }
        let mut prior: Option<WindowHandle> = None;
        std::mem::swap(&mut prior, &mut self.prior_focus);
        let was_running = self.running;
        self.running = false;
        if was_running && !task_finished {
            self.last_toggle_at = Some(now_us);
            return PressAction::Stop { restore: prior };
        }
        if was_running {
            PressAction::Start { restore_first: prior }
        } else {
            PressAction::Start { restore_first: None }
        }
    }

    /// Records that the profile's task started at `now_us`, with the window
    /// focused before toggle-on when its scope is a window (`None` for the
    /// desktop). This is the moment the toggle takes effect.
    pub fn mark_started(&mut self, prior: Option<WindowHandle>, now_us: u64)
        ensures
            final(self).deep_view() == start_transition(old(self).deep_view(), handle_model(prior), now_us),
    {
        self.running = true;
        self.last_toggle_at = Some(now_us);
        self.prior_focus = prior;
    }

    /// Stops the profile for shutdown, handing back the focus to restore.
    pub fn on_shutdown(&mut self) -> (r: Option<WindowHandle>)
        ensures
            final(self).deep_view() == (ProfileStateModel {
                running: false,
                last_toggle_at: old(self).deep_view().last_toggle_at,
                prior_focus: None,
            }),
            handle_model(r) == old(self).deep_view().prior_focus,
    {
        let mut prior: Option<WindowHandle> = None;
        std::mem::swap(&mut prior, &mut self.prior_focus);
        self.running = false;
        prior
    }
}

/// A press inside the debounce window changes nothing and does nothing.
pub proof fn law_debounced_press_is_ignored(s: ProfileStateModel, debounce_ms: u32, now_us: u64, task_finished: bool)
    requires
        is_debounced(s, debounce_ms, now_us),
    ensures
        press_transition(s, debounce_ms, now_us, task_finished).0 == s,
        press_transition(s, debounce_ms, now_us, task_finished).1 is Ignore,
{
}

/// A toggle-on attempt that is never completed (no window matched, or the
/// window could not be listed or activated) is not a toggle: the profile
/// stays stopped, its toggle time stays as it was, and so every later press
/// is debounced exactly as if the failed press had not happened.
pub proof fn law_failed_start_is_not_a_toggle(
    s: ProfileStateModel,
    debounce_ms: u32,
    now_us: u64,
    task_finished: bool,
    later_debounce_ms: u32,
    later_us: u64,
)
    requires
        press_transition(s, debounce_ms, now_us, task_finished).1 is Start,
    ensures
        ({
            let after = press_transition(s, debounce_ms, now_us, task_finished).0;
            &&& !after.running
            &&& after.last_toggle_at == s.last_toggle_at
            &&& is_debounced(after, later_debounce_ms, later_us) == is_debounced(s, later_debounce_ms, later_us)
        }),
{
}

/// Toggling on and then off again (presses far enough apart) stops the
/// profile and restores exactly the focus captured at toggle-on, leaving no
/// prior focus behind.
pub proof fn law_toggle_off_restores_focus_captured_at_toggle_on(
    s: ProfileStateModel,
    debounce_ms: u32,
    t_on: u64,
    t_started: u64,
    t_off: u64,
    prior: Option<Seq<char>>,
)
    requires
        state_wf(s),
        !s.running,
        !is_debounced(s, debounce_ms, t_on),
        t_off >= t_started + debounce_ms * 1000,
    ensures
        press_transition(s, debounce_ms, t_on, false).1 == (PressActionModel::Start { restore_first: None }),
        ({
            let started = start_transition(press_transition(s, debounce_ms, t_on, false).0, prior, t_started);
            let (after, action) = press_transition(started, debounce_ms, t_off, false);
            &&& action == (PressActionModel::Stop { restore: prior })
            &&& !after.running
            &&& after.prior_focus is None
            &&& after.last_toggle_at == Some(t_off)
            &&& state_wf(after)
        }),
{
}

/// A task that ended by itself is treated as stopped: the next press (not
/// debounced) starts the profile again, first restoring the focus the
/// finished run left behind, so that focus is never lost.
pub proof fn law_finished_task_restarts_after_restoring_focus(s: ProfileStateModel, debounce_ms: u32, now_us: u64)
    requires
        state_wf(s),
        s.running,
        !is_debounced(s, debounce_ms, now_us),
    ensures
        press_transition(s, debounce_ms, now_us, true).1 == (PressActionModel::Start { restore_first: s.prior_focus }),
        !press_transition(s, debounce_ms, now_us, true).0.running,
{
}

/// Every press and every start keeps the state well formed.
pub proof fn law_press_keeps_state_wf(s: ProfileStateModel, debounce_ms: u32, now_us: u64, task_finished: bool, prior: Option<Seq<char>>)
    requires
        state_wf(s),
    ensures
        state_wf(press_transition(s, debounce_ms, now_us, task_finished).0),
        state_wf(start_transition(s, prior, now_us)),
{
}

// ---------------------------------------------------------------------------
// The runner
// ---------------------------------------------------------------------------

/// Failures that end a run.
#[derive(Debug)]
pub enum RunnerError {
    /// A profile's hotkey could not be registered at startup.
    HotkeyRegistration { profile_name: String, source: HotkeyError },
}

/// The text a runner error is shown with.
pub open spec fn runner_message(e: RunnerError) -> Seq<char> {
    match e {
        RunnerError::HotkeyRegistration { profile_name, source } => "failed to register hotkey for profile "@
            + debug_quoted(profile_name@) + ": "@ + hotkey_message(source),
    }
}

impl RunnerError {
    /// The text this error is shown with.
    pub fn message(&self) -> (r: String)
        ensures
            r@ == runner_message(*self),
    {
        match self {
            RunnerError::HotkeyRegistration { profile_name, source } => {
                let mut m = String::new();
                push_str(&mut m, "failed to register hotkey for profile ");
                let q = debug_str(profile_name.as_str());
                push_str(&mut m, q.as_str());
                push_str(&mut m, ": ");
                let t = source.message();
                push_str(&mut m, t.as_str());
                assert(m@ =~= runner_message(*self));
                m
            },
        }
    }
}

/// Records the outcome of registering one profile's hotkey at startup: the
/// id minted for it is appended to `registered` (whose position `i` belongs
/// to profile `i`), and a failure becomes the error that ends the run,
/// naming that profile, with `registered` left as it was.
pub fn record_registration(
    registered: &mut Vec<HotkeyId>,
    profile_name: &String,
    outcome: Result<(HotkeyId, KeyCombo), HotkeyError>,
) -> (r: Result<(), RunnerError>)
    ensures
        match outcome {
            Ok((id, _)) => r is Ok && final(registered)@ == old(registered)@.push(id),
            Err(e) => final(registered)@ == old(registered)@ && (r matches Err(
                RunnerError::HotkeyRegistration { profile_name: n, source },
            ) && n@ == profile_name@ && source == e),
        },
{
    match outcome {
        Ok((id, _combo)) => {
            registered.push(id);
            Ok(())
        },
        Err(source) => Err(RunnerError::HotkeyRegistration { profile_name: profile_name.clone(), source }),
    }
}

/// The runner: a hotkey backend, an input injector, a window locator and the
/// profiles they serve.
pub struct Runner<H, I, W> {
    hotkey: H,
    input: I,
    window: W,
    profiles: Vec<Profile>,
}

impl<H, I, W> Runner<H, I, W> {
    /// The profiles this runner serves.
    pub closed spec fn profiles_model(&self) -> Seq<ProfileModel> {
        self.profiles.deep_view()
    }

    /// The hotkey backend this runner registers with.
    pub closed spec fn hotkey_spec(&self) -> H {
        self.hotkey
    }

    /// The injector this runner's profiles inject through.
    pub closed spec fn input_spec(&self) -> I {
        self.input
    }

    /// The window locator window-scoped profiles are resolved with.
    pub closed spec fn window_spec(&self) -> W {
        self.window
    }

    /// Assembles a runner. The input injector must already be connected.
    pub fn new(hotkey: H, input: I, window: W, profiles: Vec<Profile>) -> (r: Self)
        ensures
            r.hotkey_spec() == hotkey,
            r.input_spec() == input,
            r.window_spec() == window,
            r.profiles_model() == profiles.deep_view(),
    {
        Runner { hotkey, input, window, profiles }
    }

    /// Takes the runner apart for the event loop that drives it.
    pub fn into_parts(self) -> (r: (H, I, W, Vec<Profile>))
        ensures
            r.0 == self.hotkey_spec(),
            r.1 == self.input_spec(),
            r.2 == self.window_spec(),
            r.3.deep_view() == self.profiles_model(),
    {
        (self.hotkey, self.input, self.window, self.profiles)
    }
}

} // verus!
