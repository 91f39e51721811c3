//! Decisions of the settings window: capturing a new hotkey from key presses
//! and remembering the window position.

use vstd::prelude::*;
use crate::config::AppConfig;
use crate::hotkey::{HotkeyBinding, HotkeyModifiers, KeyCode};

verus! {

/// A key press seen while a new hotkey is being captured.
#[derive(Clone, Copy, Debug, PartialEq, Eq, Structural)]
pub struct CapturedKey {
    /// The escape key, which cancels the capture.
    pub escape: bool,
    /// The bindable key that was pressed, if it is one.
    pub code: Option<KeyCode>,
    pub ctrl: bool,
    pub command: bool,
    pub alt: bool,
    pub shift: bool,
}

/// How a capture ends.
#[derive(Clone, Copy, Debug, PartialEq, Eq, Structural)]
pub enum CaptureOutcome {
    /// No decisive key yet: keep waiting.
    Waiting,
    /// Escape was pressed: stop waiting, keep the old binding.
    Cancelled,
    /// A bindable key was pressed: bind it.
    Bound(HotkeyBinding),
}

/// The binding that a captured press stands for: control (or command),
/// alt and shift as held, never the super key.
pub open spec fn captured_binding(k: CapturedKey, code: KeyCode) -> HotkeyBinding {
    HotkeyBinding {
        modifiers: HotkeyModifiers {
            control: k.ctrl || k.command,
            alt: k.alt,
            shift: k.shift,
            super_key: false,
        },
        code,
    }
}

/// The outcome of the presses in order: the first escape or bindable key
/// decides; other keys are passed over.
pub open spec fn capture_outcome(presses: Seq<CapturedKey>) -> CaptureOutcome
    decreases presses.len(),
{
    if presses.len() == 0 {
        CaptureOutcome::Waiting
    } else if presses[0].escape {
        CaptureOutcome::Cancelled
    } else {
        match presses[0].code {
            Some(code) => CaptureOutcome::Bound(captured_binding(presses[0], code)),
            None => capture_outcome(presses.drop_first()),
        }
    }
}

/// The first press that is escape or a bindable key decides the capture.
/// Escape cancels it. A bindable key is bound with exactly the modifiers held
/// at that press: alt as held, shift as held, control when control or command
/// was held, never the super key. When no press decides, the capture waits.
pub proof fn lemma_capture_first_decisive(presses: Seq<CapturedKey>, i: int)
    requires
        0 <= i <= presses.len(),
        forall|j: int| 0 <= j < i ==> !(#[trigger] presses[j]).escape && presses[j].code is None,
    ensures
        i == presses.len() ==> capture_outcome(presses) == CaptureOutcome::Waiting,
        i < presses.len() && presses[i].escape ==> capture_outcome(presses)
            == CaptureOutcome::Cancelled,
        i < presses.len() && !presses[i].escape && presses[i].code is Some ==> {
            let k = presses[i];
            &&& capture_outcome(presses) is Bound
            &&& capture_outcome(presses)->Bound_0.code == k.code.unwrap()
            &&& capture_outcome(presses)->Bound_0.modifiers.alt == k.alt
            &&& capture_outcome(presses)->Bound_0.modifiers.shift == k.shift
            &&& capture_outcome(presses)->Bound_0.modifiers.control == (k.ctrl || k.command)
            &&& !capture_outcome(presses)->Bound_0.modifiers.super_key
        },
    decreases i,
{
    if i > 0 {
        let rest = presses.drop_first();
        assert forall|j: int| 0 <= j < i - 1 implies !(#[trigger] rest[j]).escape
            && rest[j].code is None by {
            assert(rest[j] == presses[j + 1]);
        }
        assert(!presses[0].escape && presses[0].code is None);
        lemma_capture_first_decisive(rest, i - 1);
        if i < presses.len() {
            assert(rest[i - 1] == presses[i]);
        }
    }
}

/// The outcome of this frame's key presses while a capture is waiting.
pub fn scan_capture(presses: &Vec<CapturedKey>) -> (r: CaptureOutcome)
    ensures
        r == capture_outcome(presses@),
{
    let mut i: usize = 0;
    assert(presses@.skip(0) =~= presses@);
    while i < presses.len()
        invariant
            i <= presses@.len(),
            capture_outcome(presses@) == capture_outcome(presses@.skip(i as int)),
        decreases presses.len() - i,
    {
        let k = presses[i];
        proof {
            let rest = presses@.skip(i as int);
            assert(rest[0] == k);
            assert(rest.drop_first() =~= presses@.skip(i + 1));
        }
        if k.escape {
            return CaptureOutcome::Cancelled;
        }
        if let Some(code) = k.code {
            let binding = HotkeyBinding {
                modifiers: HotkeyModifiers {
                    control: k.ctrl || k.command,
                    alt: k.alt,
                    shift: k.shift,
                    super_key: false,
                },
                code,
            };
            return CaptureOutcome::Bound(binding);
        }
        i = i + 1;
    }
    CaptureOutcome::Waiting
}

/// Records the window's position in the settings when it differs from the
/// last one saved; returns whether it did, in which case the settings are
/// to be written out.
pub fn note_window_position(
    config: &mut AppConfig,
    last_saved: &mut Option<(i32, i32)>,
    x: i32,
    y: i32,
) -> (changed: bool)
    ensures
        changed == (*old(last_saved) != Some((x, y))),
        changed ==> *final(last_saved) == Some((x, y)) && *final(config) == (AppConfig {
            window_x: Some(x),
            window_y: Some(y),
            ..*old(config)
        }),
        !changed ==> *final(last_saved) == *old(last_saved) && *final(config) == *old(config),
{
    let same = match *last_saved {
        Some((sx, sy)) => sx == x && sy == y,
        None => false,
    };
    if same {
        return false;
    }
    *last_saved = Some((x, y));
    config.window_x = Some(x);
    config.window_y = Some(y);
    true
}

/// What a frame's presses of the bound hotkey do.
#[derive(Clone, Copy, Debug, PartialEq, Eq, Structural)]
pub struct HotkeyPollStep {
    /// The capture of a new hotkey ends (the bound one was pressed).
    pub stop_waiting: bool,
    /// The clicker is switched on or off.
    pub toggle_running: bool,
}

/// The effect of the bound hotkey's presses (`toggled`: an odd number of
/// them): while a new hotkey is being captured they end the capture and
/// never toggle the clicker; otherwise they toggle it.
pub fn hotkey_poll_step(waiting: bool, toggled: bool) -> (r: HotkeyPollStep)
    ensures
        r.stop_waiting == (waiting && toggled),
        r.toggle_running == (!waiting && toggled),
{
    HotkeyPollStep { stop_waiting: waiting && toggled, toggle_running: !waiting && toggled }
}

/// Takes in the outcome of registering a new binding. On success the
/// settings hold the binding and the result is `true`: the settings are to
/// be written and the status line cleared. On failure the settings stay, the
/// status line shows the message and the result is `false`.
pub fn apply_rebind_result(
    config: &mut AppConfig,
    status: &mut String,
    binding: HotkeyBinding,
    result: Result<(), String>,
) -> (bound: bool)
    ensures
        bound == result is Ok,
        match result {
            Ok(()) => *final(config) == (AppConfig { hotkey: binding, ..*old(config) })
                && final(status)@ == old(status)@,
            Err(e) => *final(config) == *old(config) && final(status)@ == e@,
        },
{
    match result {
        Ok(()) => {
            config.hotkey = binding;
            true
        },
        Err(e) => {
            *status = e;
            false
        },
    }
}

} // verus!
