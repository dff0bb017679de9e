use orchestrator::kwin::{
    build_activate_script, build_kwin_script, build_script_name, callback_outcome, map_activate_payload,
    map_focused_payload, raw_to_window_info, script_object_path, RawWindowInfo,
};
use orchestrator::window::{WindowError, WindowHandle};

#[test]
fn maps_empty_class_name_to_none() {
    let raw = RawWindowInfo {
        id: "id-1".to_string(),
        title: "Some Popup".to_string(),
        class_name: String::new(),
        pid: Some(10),
    };
    let info = raw_to_window_info(raw);
    assert_eq!(info.handle, WindowHandle("id-1".to_string()));
    assert_eq!(info.pid, Some(10));
    assert_eq!(info.process_name, None);
    assert_eq!(info.title, "Some Popup");
}

#[test]
fn maps_present_class_name_to_some() {
    let raw = RawWindowInfo {
        id: "id-2".to_string(),
        title: "Mozilla Firefox".to_string(),
        class_name: "firefox".to_string(),
        pid: Some(4242),
    };
    assert_eq!(raw_to_window_info(raw).process_name, Some("firefox".to_string()));
}

#[test]
fn focused_payload_empty_string_is_none() {
    assert_eq!(map_focused_payload(String::new()), None);
}

#[test]
fn focused_payload_non_empty_wraps_handle() {
    assert_eq!(map_focused_payload("some-id".to_string()), Some(WindowHandle("some-id".to_string())));
}

#[test]
fn activate_payload_not_found_maps_to_not_found_error() {
    assert!(matches!(map_activate_payload("not_found"), Err(WindowError::NotFound)));
}

#[test]
fn activate_payload_activated_is_ok() {
    assert!(map_activate_payload("activated").is_ok());
}

#[test]
fn build_activate_script_embeds_plain_handle_as_a_string_literal() {
    let js = build_activate_script("abc-123");
    assert!(js.contains(r#"var target = "abc-123";"#));
    assert!(js.contains(r#"if (w.internalId.toString() == target)"#));
}

#[test]
fn build_activate_script_escapes_a_quote_in_the_handle() {
    let malicious = r#"" + (workspace.activeWindow = null) + ""#;
    let js = build_activate_script(malicious);
    assert!(!js.contains(&format!("var target = \"{malicious}\";")));
    let expected_literal = serde_json::to_string(malicious).unwrap();
    assert!(js.contains(&format!("var target = {expected_literal};")));
    let target_line = js
        .lines()
        .find(|l| l.trim_start().starts_with("var target ="))
        .expect("generated script must contain a `var target = ...;` line");
    let mut chars = target_line.chars().peekable();
    let mut unescaped_quotes = 0;
    while let Some(c) = chars.next() {
        if c == '\\' {
            chars.next();
        } else if c == '"' {
            unescaped_quotes += 1;
        }
    }
    assert_eq!(unescaped_quotes, 2, "expected exactly the literal's own opening/closing quotes, got line: {target_line}");
}

#[test]
fn build_activate_script_handles_backslashes_and_control_chars() {
    let tricky = "back\\slash\nand\ttab";
    let js = build_activate_script(tricky);
    let expected_literal = serde_json::to_string(tricky).unwrap();
    assert!(js.contains(&format!("var target = {expected_literal};")));
}

// -- further cases ---------------------------------------------------------

#[test]
fn parses_negative_pid_without_failing_the_whole_array() {
    let raw = RawWindowInfo { id: "def-456".to_string(), title: "Unknown".to_string(), class_name: String::new(), pid: Some(-1) };
    assert_eq!(raw_to_window_info(raw).pid, None);
}

#[test]
fn parses_missing_pid_field_without_failing_the_whole_array() {
    let raw = RawWindowInfo { id: "ghi-789".to_string(), title: "No Pid".to_string(), class_name: String::new(), pid: None };
    assert_eq!(raw_to_window_info(raw).pid, None);
}

#[test]
fn pids_beyond_u32_are_dropped() {
    let raw = RawWindowInfo { id: "x".to_string(), title: "t".to_string(), class_name: "c".to_string(), pid: Some(1 << 40) };
    assert_eq!(raw_to_window_info(raw).pid, None);
    let raw = RawWindowInfo { id: "x".to_string(), title: "t".to_string(), class_name: "c".to_string(), pid: Some(4294967295) };
    assert_eq!(raw_to_window_info(raw).pid, Some(u32::MAX));
}

#[test]
fn activation_script_escapes_low_control_characters_in_hex() {
    let js = build_activate_script("a\u{1}b\u{7f}");
    assert!(js.contains("var target = \"a\\u0001b\u{7f}\";"));
}

#[test]
fn kwin_script_reports_back_to_the_given_bus_name() {
    let s = build_kwin_script(":1.42", "output_result(1);");
    assert!(s.contains("callDBus(\":1.42\", \"/\", \"\", \"result\", message.toString());"));
    assert!(s.contains("callDBus(\":1.42\", \"/\", \"\", \"error\", message.toString());"));
    assert!(s.contains("try {\noutput_result(1);\n} catch (e) {"));
}

#[test]
fn script_names_and_paths() {
    assert_eq!(build_script_name(4242, 7), "orchestrator-window-4242-7");
    assert_eq!(script_object_path(3).unwrap(), "/Scripting/Script3");
    match script_object_path(-1) {
        Err(WindowError::BackendUnavailable(m)) => {
            assert_eq!(m, "loadScript returned -1 (a script with this name may already be loaded)")
        },
        other => panic!("expected a refusal, got {other:?}"),
    }
}

#[test]
fn script_callbacks_are_read_by_member() {
    assert_eq!(callback_outcome("result", "[]".to_string()).unwrap().unwrap(), "[]");
    match callback_outcome("error", "boom".to_string()) {
        Some(Err(WindowError::BackendUnavailable(m))) => assert_eq!(m, "KWin script error: boom"),
        other => panic!("expected a script error, got {other:?}"),
    }
    assert!(callback_outcome("Introspect", String::new()).is_none());
}

#[test]
fn only_method_calls_to_the_root_path_are_script_callbacks() {
    assert!(orchestrator::kwin::is_script_callback(true, Some("/")));
    assert!(!orchestrator::kwin::is_script_callback(false, Some("/")));
    assert!(!orchestrator::kwin::is_script_callback(true, Some("/Scripting")));
    assert!(!orchestrator::kwin::is_script_callback(true, None));
}
