use orchestrator::hotkey::{HotkeyBackend, HotkeyError, HotkeyId, KeyCombo, MacosHotkeyBackend};
use orchestrator::input::{InjectError, InputEvent, InputInjector, MacosInputInjector};
use orchestrator::window::{MacosWindowLocator, WindowError, WindowHandle};

#[test]
fn register_reports_backend_unavailable() {
    let backend = MacosHotkeyBackend;
    let combo = KeyCombo { modifiers: vec![], key: "F9".to_string() };
    let result = backend.register("test-action", Some(&combo));
    assert!(matches!(result, Err(HotkeyError::BackendUnavailable(_))));
}

#[test]
fn unregister_reports_backend_unavailable() {
    let backend = MacosHotkeyBackend;
    let result = backend.unregister(HotkeyId(1));
    assert!(matches!(result, Err(HotkeyError::BackendUnavailable(_))));
}

#[test]
fn subscribe_returns_closed_receiver() {
    let backend = MacosHotkeyBackend;
    let rx = backend.subscribe();
    assert!(rx.recv().is_err());
}

#[test]
fn lib_backend_name_is_macos_stub() {
    assert_eq!(MacosHotkeyBackend.backend_name(), "macos-stub");
    assert_eq!(MacosInputInjector.backend_name(), "macos-stub");
}

#[test]
fn connect_reports_backend_unavailable() {
    let mut backend = MacosInputInjector;
    assert!(matches!(backend.connect(), Err(InjectError::BackendUnavailable(_))));
}

#[test]
fn inject_reports_backend_unavailable() {
    let backend = MacosInputInjector;
    let event = InputEvent::Scroll { dx: 0, dy: 1 };
    assert!(matches!(backend.inject(&event), Err(InjectError::BackendUnavailable(_))));
}

#[test]
fn does_not_require_focus_steal() {
    assert!(!MacosInputInjector.requires_focus_steal_for_window_targeting());
}

#[test]
fn list_windows_reports_backend_unavailable() {
    assert!(matches!(MacosWindowLocator.list_windows(), Err(WindowError::BackendUnavailable(_))));
}

#[test]
fn focused_window_reports_backend_unavailable() {
    assert!(matches!(MacosWindowLocator.focused_window(), Err(WindowError::BackendUnavailable(_))));
}

#[test]
fn activate_window_reports_backend_unavailable() {
    let handle = WindowHandle("x".to_string());
    assert!(matches!(MacosWindowLocator.activate_window(&handle), Err(WindowError::BackendUnavailable(_))));
}

// -- further cases ---------------------------------------------------------

#[test]
fn stand_in_backends_explain_themselves() {
    match MacosWindowLocator.list_windows() {
        Err(e) => assert_eq!(e.message(), "window backend unavailable: macOS backend not yet implemented"),
        Ok(_) => panic!("the stand-in locator lists nothing"),
    }
    match MacosInputInjector.inject(&InputEvent::Scroll { dx: 0, dy: 1 }) {
        Err(e) => assert_eq!(e.message(), "input injection backend unavailable: macOS backend not yet implemented"),
        Ok(()) => panic!("the stand-in injector injects nothing"),
    }
}

#[test]
fn hotkey_error_messages() {
    let combo = KeyCombo { modifiers: vec![orchestrator::hotkey::Modifier::Ctrl], key: "A".to_string() };
    assert_eq!(
        HotkeyError::AlreadyRegistered(combo.clone()).message(),
        format!("hotkey already registered: {combo:?}")
    );
    assert_eq!(HotkeyError::RegistrationFailed("x".to_string()).message(), "hotkey registration failed: x");
}

#[test]
fn taken_receiver_is_handed_out_once() {
    let (tx, rx) = std::sync::mpsc::channel::<u8>();
    let mut slot = Some(rx);
    let first = orchestrator::hotkey::take_receiver(&mut slot);
    tx.send(7).unwrap();
    assert_eq!(first.recv().unwrap(), 7);
    assert!(slot.is_none());
    let second = orchestrator::hotkey::take_receiver(&mut slot);
    assert!(second.recv().is_err());
}
