//! `Action`, `Jitter`, `MacroStep` and `ClickPosition`: what a profile does
//! when it is toggled on.
use vstd::prelude::*;

use crate::hotkey::{KeyCombo, KeyComboModel};
use crate::input::{InputEvent, InputEventModel, MouseButton};

verus! {

/// Timing noise added to a repeat action's interval.
#[derive(Debug, Clone, Copy, PartialEq, Eq)]
pub enum Jitter {
    /// No jitter applied (stored as `"None"` in the on-disk format).
    Disabled,
    /// Uniform random jitter of up to `range_ms` either side of the interval.
    Uniform { range_ms: u64 },
}

/// Where a click or drag endpoint lands.
#[derive(Debug, Clone, Copy, PartialEq, Eq)]
pub enum ClickPosition {
    /// Absolute screen coordinates.
    Fixed { x: i32, y: i32 },
    /// Wherever the cursor is when the step runs.
    AtCursor,
}

/// One step of a macro; every step waits `delay_ms` before it acts.
#[derive(Debug, PartialEq)]
pub enum MacroStep {
    KeyPress { combo: KeyCombo, delay_ms: u32 },
    MouseClick { delay_ms: u32, button: MouseButton, position: ClickPosition },
    Drag { delay_ms: u32, from: ClickPosition, to: ClickPosition },
    Scroll { delay_ms: u32, dx: i32, dy: i32 },
}

/// What a profile does while it is on.
#[derive(Debug, PartialEq)]
pub enum Action {
    /// Inject `input` every `interval_ms`, perturbed by `jitter`.
    Repeat { input: InputEvent, interval_ms: u64, jitter: Jitter },
    /// Run `steps` in order, once or (with `loop_`) until toggled off.
    Macro { steps: Vec<MacroStep>, loop_: bool },
}

/// The mathematical content of a `MacroStep`.
#[verifier::ext_equal]
pub enum MacroStepModel {
    KeyPress { combo: KeyComboModel, delay_ms: u32 },
    MouseClick { delay_ms: u32, button: MouseButton, position: ClickPosition },
    Drag { delay_ms: u32, from: ClickPosition, to: ClickPosition },
    Scroll { delay_ms: u32, dx: i32, dy: i32 },
}

/// The mathematical content of an `Action`.
#[verifier::ext_equal]
pub enum ActionModel {
    Repeat { input: InputEventModel, interval_ms: u64, jitter: Jitter },
    Macro { steps: Seq<MacroStepModel>, loop_: bool },
}

impl DeepView for MacroStep {
    type V = MacroStepModel;

    open spec fn deep_view(&self) -> MacroStepModel {
        match self {
            MacroStep::KeyPress { combo, delay_ms } => MacroStepModel::KeyPress {
                combo: combo.deep_view(),
                delay_ms: *delay_ms,
            },
            MacroStep::MouseClick { delay_ms, button, position } => MacroStepModel::MouseClick {
                delay_ms: *delay_ms,
                button: *button,
                position: *position,
            },
            MacroStep::Drag { delay_ms, from, to } => MacroStepModel::Drag {
                delay_ms: *delay_ms,
                from: *from,
                to: *to,
            },
            MacroStep::Scroll { delay_ms, dx, dy } => MacroStepModel::Scroll {
                delay_ms: *delay_ms,
                dx: *dx,
                dy: *dy,
            },
        }
    }
}

impl DeepView for Action {
    type V = ActionModel;

    open spec fn deep_view(&self) -> ActionModel {
        match self {
            Action::Repeat { input, interval_ms, jitter } => ActionModel::Repeat {
                input: input.deep_view(),
                interval_ms: *interval_ms,
                jitter: *jitter,
            },
            Action::Macro { steps, loop_ } => ActionModel::Macro {
                steps: steps.deep_view(),
                loop_: *loop_,
            },
        }
    }
}

impl Clone for MacroStep {
    fn clone(&self) -> (r: Self)
        ensures
            r.deep_view() == self.deep_view(),
    {
        match self {
            MacroStep::KeyPress { combo, delay_ms } => MacroStep::KeyPress {
                combo: combo.clone(),
                delay_ms: *delay_ms,
            },
            MacroStep::MouseClick { delay_ms, button, position } => MacroStep::MouseClick {
                delay_ms: *delay_ms,
                button: *button,
                position: *position,
            },
            MacroStep::Drag { delay_ms, from, to } => MacroStep::Drag {
                delay_ms: *delay_ms,
                from: *from,
                to: *to,
            },
            MacroStep::Scroll { delay_ms, dx, dy } => MacroStep::Scroll {
                delay_ms: *delay_ms,
                dx: *dx,
                dy: *dy,
            },
        }
    }
}

/// A copy of a step list.
pub fn copy_steps(v: &Vec<MacroStep>) -> (r: Vec<MacroStep>)
    ensures
        r.deep_view() == v.deep_view(),
{
    let mut r: Vec<MacroStep> = Vec::new();
    let mut i: usize = 0;
    while i < v.len()
        invariant
            i <= v@.len(),
            r@.len() == i,
            r.deep_view() == v.deep_view().take(i as int),
        decreases v@.len() - i,
    {
        let s = v[i].clone();
        let ghost old_r = r@;
        let ghost old_dv = r.deep_view();
        assert(s.deep_view() == v.deep_view()[i as int]);
        r.push(s);
        assert(r@ == old_r.push(s));
        assert forall|k: int| 0 <= k < i + 1 implies #[trigger] r.deep_view()[k] == v.deep_view()[k] by {
            if k < i {
                assert(r@[k] == old_r[k]);
                assert(old_dv[k] == v.deep_view().take(i as int)[k]);
            }
        }
        assert(r.deep_view() =~= v.deep_view().take(i + 1));
        i = i + 1;
    }
    assert(r.deep_view() =~= v.deep_view());
    r
}

impl Clone for Action {
    fn clone(&self) -> (r: Self)
        ensures
            r.deep_view() == self.deep_view(),
    {
        match self {
            Action::Repeat { input, interval_ms, jitter } => Action::Repeat {
                input: input.clone(),
                interval_ms: *interval_ms,
                jitter: *jitter,
            },
            Action::Macro { steps, loop_ } => Action::Macro { steps: copy_steps(steps), loop_: *loop_ },
        }
    }
}

} // verus!
