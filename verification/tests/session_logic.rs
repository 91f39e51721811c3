use hermes_clicker::config::AppConfig;
use hermes_clicker::hotkey::{
    manager_failure, rebind_outcome, registration_failure, toggle_from_events, HotkeyBinding,
    HotkeyEvent, HotkeyModifiers, KeyCode,
};
use hermes_clicker::session::{
    apply_rebind_result, hotkey_poll_step, note_window_position, scan_capture, CaptureOutcome,
    CapturedKey,
};

fn press(escape: bool, code: Option<KeyCode>) -> CapturedKey {
    CapturedKey { escape, code, ctrl: false, command: false, alt: false, shift: false }
}

#[test]
fn capture_waits_without_decisive_key() {
    assert_eq!(scan_capture(&vec![]), CaptureOutcome::Waiting);
    assert_eq!(scan_capture(&vec![press(false, None)]), CaptureOutcome::Waiting);
}

#[test]
fn capture_binds_first_bindable_key() {
    let mut k = press(false, Some(KeyCode::KeyG));
    k.command = true;
    k.shift = true;
    let out = scan_capture(&vec![press(false, None), k, press(true, None)]);
    assert_eq!(
        out,
        CaptureOutcome::Bound(HotkeyBinding {
            modifiers: HotkeyModifiers { control: true, alt: false, shift: true, super_key: false },
            code: KeyCode::KeyG,
        })
    );
}

#[test]
fn escape_cancels_capture() {
    let out = scan_capture(&vec![press(true, Some(KeyCode::Escape)), press(false, Some(KeyCode::F1))]);
    assert_eq!(out, CaptureOutcome::Cancelled);
}

#[test]
fn presses_toggle_by_parity() {
    let ev = |id, pressed| HotkeyEvent { id, pressed };
    assert!(!toggle_from_events(&vec![], 7));
    assert!(toggle_from_events(&vec![ev(7, true)], 7));
    assert!(!toggle_from_events(&vec![ev(7, true), ev(7, false), ev(7, true)], 7));
    assert!(toggle_from_events(&vec![ev(3, true), ev(7, true), ev(7, false)], 7));
}

#[test]
fn window_position_saved_once_per_change() {
    let mut c = AppConfig::default();
    let mut last = None;
    assert!(note_window_position(&mut c, &mut last, 10, 20));
    assert_eq!((c.window_x, c.window_y), (Some(10), Some(20)));
    assert_eq!(last, Some((10, 20)));
    assert!(!note_window_position(&mut c, &mut last, 10, 20));
    assert!(note_window_position(&mut c, &mut last, 10, 21));
    assert_eq!(c.window_y, Some(21));
}

#[test]
fn registration_messages() {
    let b = HotkeyBinding {
        modifiers: HotkeyModifiers { control: true, alt: false, shift: false, super_key: false },
        code: KeyCode::F9,
    };
    assert_eq!(manager_failure("boom"), "Hotkey manager error: boom");
    assert_eq!(registration_failure(b, "taken"), "Failed to register hotkey Ctrl+F9: taken");
    assert_eq!(rebind_outcome(b, Ok(()), Ok(()), Ok(())), Ok(()));
    assert_eq!(
        rebind_outcome(b, Err("gone".to_string()), Ok(()), Ok(())),
        Err("Failed to unregister previous hotkey: gone".to_string())
    );
    assert_eq!(
        rebind_outcome(b, Ok(()), Err("taken".to_string()), Ok(())),
        Err("Failed to register hotkey Ctrl+F9: taken".to_string())
    );
    assert_eq!(
        rebind_outcome(b, Ok(()), Err("taken".to_string()), Err("lost".to_string())),
        Err("Failed to bind new hotkey (taken) and rollback failed (lost)".to_string())
    );
}

#[test]
fn hotkey_presses_end_capture_or_toggle() {
    let s = hotkey_poll_step(true, true);
    assert!(s.stop_waiting && !s.toggle_running);
    let s = hotkey_poll_step(false, true);
    assert!(!s.stop_waiting && s.toggle_running);
    let s = hotkey_poll_step(true, false);
    assert!(!s.stop_waiting && !s.toggle_running);
    let s = hotkey_poll_step(false, false);
    assert!(!s.stop_waiting && !s.toggle_running);
}

#[test]
fn rebind_result_updates_settings_or_status() {
    let b = HotkeyBinding {
        modifiers: HotkeyModifiers { control: false, alt: true, shift: false, super_key: false },
        code: KeyCode::KeyX,
    };
    let mut c = AppConfig::default();
    let mut status = String::from("old");
    assert!(apply_rebind_result(&mut c, &mut status, b, Ok(())));
    assert_eq!(c.hotkey, b);
    assert_eq!(status, "old");
    let mut c = AppConfig::default();
    assert!(!apply_rebind_result(&mut c, &mut status, b, Err("taken".to_string())));
    assert_eq!(c, AppConfig::default());
    assert_eq!(status, "taken");
}
