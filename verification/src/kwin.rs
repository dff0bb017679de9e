//! The KWin scripting window backend, minus the D-Bus traffic: the scripts
//! it loads into KWin, how it names them, and how it reads what they report
//! back. KWin scripts have no return channel, so each script calls back
//! into the client's own bus name with `callDBus(.., "result" | "error",
//! payload)`; loading, running and listening are carried out by the
//! application around this library.
use vstd::prelude::*;

use crate::text::{hex_byte, hex_char, int_decimal, nat_decimal, push_i64, push_str, push_u64};
use crate::window::{WindowError, WindowHandle, WindowInfo};

verus! {

/// One window as the listing script reports it. KWin's `pid` is a JS
/// integer that can be `-1` or missing when unknown.
pub struct RawWindowInfo {
    pub id: String,
    pub title: String,
    pub class_name: String,
    pub pid: Option<i64>,
}

/// A reported pid as a process id: only values that fit a `u32` are kept.
pub open spec fn known_pid(pid: Option<i64>) -> Option<u32> {
    match pid {
        Some(p) => if 0 <= p <= u32::MAX { Some(p as u32) } else { None },
        None => None,
    }
}

/// Maps a reported window onto a window description: the resource class
/// names the process, an empty class meaning none.
pub fn raw_to_window_info(raw: RawWindowInfo) -> (r: WindowInfo)
    ensures
        r.handle.0@ == raw.id@,
        r.title@ == raw.title@,
        r.pid == known_pid(raw.pid),
        raw.class_name@.len() == 0 ==> r.process_name is None,
        raw.class_name@.len() > 0 ==> (r.process_name matches Some(n) && n@ == raw.class_name@),
{
    let pid = match raw.pid {
        Some(p) => if 0 <= p && p <= 4294967295i64 {
            Some(p as u32)
        } else {
            None
        },
        None => None,
    };
    let process_name = if raw.class_name.as_str().is_empty() {
        None
    } else {
        Some(raw.class_name)
    };
    WindowInfo { handle: WindowHandle(raw.id), pid, process_name, title: raw.title }
}

/// Reads the focused-window script's report: empty means nothing is focused.
pub fn map_focused_payload(payload: String) -> (r: Option<WindowHandle>)
    ensures
        payload@.len() == 0 ==> r is None,
        payload@.len() > 0 ==> (r matches Some(h) && h.0@ == payload@),
{
    if payload.as_str().is_empty() {
        None
    } else {
        Some(WindowHandle(payload))
    }
}

/// Reads the activation script's report: `not_found` means no window has
/// the handle; anything else is success.
pub fn map_activate_payload(payload: &str) -> (r: Result<(), WindowError>)
    ensures
        payload@ == "not_found"@ ==> r matches Err(WindowError::NotFound),
        payload@ != "not_found"@ ==> r is Ok,
{
    if crate::text::str_eq(payload, "not_found") {
        Err(WindowError::NotFound)
    } else {
        Ok(())
    }
}

// ---------------------------------------------------------------------------
// JSON string literals
// ---------------------------------------------------------------------------

/// How JSON writes one character inside a string literal: quote and
/// backslash escaped, the control characters with a short form written
/// short, the other control characters as `\u00XX` in lowercase hex, and
/// everything else verbatim.
pub open spec fn json_escape(c: char) -> Seq<char> {
    if c == '"' {
        seq!['\\', '"']
    } else if c == '\\' {
        seq!['\\', '\\']
    } else if c == '\u{8}' {
        seq!['\\', 'b']
    } else if c == '\t' {
        seq!['\\', 't']
    } else if c == '\n' {
        seq!['\\', 'n']
    } else if c == '\u{c}' {
        seq!['\\', 'f']
    } else if c == '\r' {
        seq!['\\', 'r']
    } else if (c as u32) < 0x20 {
        seq!['\\', 'u', '0', '0'] + hex_byte(c as u8)
    } else {
        seq![c]
    }
}

/// The characters of `s`, each escaped as in a JSON string literal.
pub open spec fn json_escaped(s: Seq<char>) -> Seq<char>
    decreases s.len(),
{
    if s.len() == 0 {
        Seq::empty()
    } else {
        json_escaped(s.drop_last()) + json_escape(s.last())
    }
}

/// `s` as a JSON string literal.
pub open spec fn json_quoted(s: Seq<char>) -> Seq<char> {
    seq!['"'] + json_escaped(s) + seq!['"']
}

/// Read as the inside of a string literal, `t` never ends it: scanning
/// from the front, every backslash escapes the character after it, and no
/// other character is a quote or a raw control character.
pub open spec fn stays_inside_literal(t: Seq<char>) -> bool
    decreases t.len(),
{
    if t.len() == 0 {
        true
    } else if t[0] == '\\' {
        t.len() >= 2 && stays_inside_literal(t.subrange(2, t.len() as int))
    } else {
        t[0] != '"' && (t[0] as u32) >= 0x20 && stays_inside_literal(t.drop_first())
    }
}

proof fn lemma_stays_inside_concat(a: Seq<char>, b: Seq<char>)
    requires
        stays_inside_literal(a),
        stays_inside_literal(b),
    ensures
        stays_inside_literal(a + b),
    decreases a.len(),
{
    if a.len() == 0 {
        assert(a + b =~= b);
    } else if a[0] == '\\' {
        assert((a + b).subrange(2, (a + b).len() as int) =~= a.subrange(2, a.len() as int) + b);
        lemma_stays_inside_concat(a.subrange(2, a.len() as int), b);
    } else {
        assert((a + b).drop_first() =~= a.drop_first() + b);
        lemma_stays_inside_concat(a.drop_first(), b);
    }
}

proof fn lemma_hex_char_is_plain(d: nat)
    ensures
        hex_char(d) != '"',
        hex_char(d) != '\\',
        (hex_char(d) as u32) >= 0x20,
{
}

proof fn lemma_escape_stays_inside(c: char)
    ensures
        stays_inside_literal(json_escape(c)),
{
    let e = json_escape(c);
    assert(stays_inside_literal(Seq::<char>::empty()));
    if c == '"' || c == '\\' || c == '\u{8}' || c == '\t' || c == '\n' || c == '\u{c}' || c == '\r' {
        assert(e.len() == 2 && e[0] == '\\');
        assert(e.subrange(2, 2) =~= Seq::<char>::empty());
    } else if (c as u32) < 0x20 {
        let b = c as u8;
        let h0 = hex_char((b / 16) as nat);
        let h1 = hex_char((b % 16) as nat);
        lemma_hex_char_is_plain((b / 16) as nat);
        lemma_hex_char_is_plain((b % 16) as nat);
        let t1 = seq![h1];
        assert(t1.drop_first() =~= Seq::<char>::empty());
        assert(stays_inside_literal(t1));
        let t2 = seq![h0, h1];
        assert(t2.drop_first() =~= t1);
        assert(stays_inside_literal(t2));
        let t3 = seq!['0', h0, h1];
        assert(t3.drop_first() =~= t2);
        assert(stays_inside_literal(t3));
        let t4 = seq!['0', '0', h0, h1];
        assert(t4.drop_first() =~= t3);
        assert(stays_inside_literal(t4));
        assert(e =~= seq!['\\', 'u', '0', '0', h0, h1]);
        assert(e.subrange(2, 6) =~= t4);
    } else {
        assert(e =~= seq![c]);
        assert(e.drop_first() =~= Seq::<char>::empty());
    }
}

proof fn lemma_escaped_stays_inside(s: Seq<char>)
    ensures
        stays_inside_literal(json_escaped(s)),
    decreases s.len(),
{
    if s.len() > 0 {
        lemma_escaped_stays_inside(s.drop_last());
        lemma_escape_stays_inside(s.last());
        lemma_stays_inside_concat(json_escaped(s.drop_last()), json_escape(s.last()));
    }
}

/// Whatever a window handle holds, once embedded in the activation script
/// as a JSON string literal it cannot end that literal early: the literal
/// is its opening quote, a body that stays inside the literal, and its
/// closing quote.
pub proof fn law_embedded_handle_stays_inside_its_literal(handle: Seq<char>)
    ensures
        json_quoted(handle) == seq!['"'] + json_escaped(handle) + seq!['"'],
        stays_inside_literal(json_escaped(handle)),
{
    lemma_escaped_stays_inside(handle);
}

/// serde_json's error type, carried opaquely.
#[verifier::external_type_specification]
#[verifier::external_body]
pub struct ExJsonError(serde_json::Error);

/// `serde_json::to_string` on a string slice. Trusted: serde_json writes a
/// string as a quoted literal through its escape table (quote, backslash,
/// `\b \t \n \f \r`, other bytes below 0x20 as `\u00XX` with lowercase hex
/// digits, everything else verbatim), and writing into its in-memory buffer
/// cannot fail.
#[verifier::external_body]
fn json_string_literal(s: &str) -> (r: Result<String, serde_json::Error>)
    ensures
        r is Ok,
        r.unwrap()@ == json_quoted(s@),
{
    serde_json::to_string(s)
}

// ---------------------------------------------------------------------------
// Scripts
// ---------------------------------------------------------------------------

/// The script body that lists every window as a JSON array.
pub const LIST_WINDOWS_SCRIPT: &'static str = "\n    var t = workspace.windowList();\n    var results = [];\n    for (var i = 0; i < t.length; i++) {\n        var w = t[i];\n        results.push({\n            id: w.internalId.toString(),\n            title: w.caption,\n            class_name: w.resourceClass ? w.resourceClass.toString() : \"\",\n            pid: w.pid\n        });\n    }\n    output_result(JSON.stringify(results));\n";

/// The script body that reports the focused window's id, or an empty string.
pub const FOCUSED_WINDOW_SCRIPT: &'static str = "\n    var w = workspace.activeWindow;\n    output_result(w ? w.internalId.toString() : \"\");\n";

/// The activation script for the window whose id is `target`: the id is
/// embedded as a JSON string literal, so that no handle, however crafted,
/// can end the literal early.
pub open spec fn activate_script(target: Seq<char>) -> Seq<char> {
    "\n    var t = workspace.windowList();\n    var found = false;\n    var target = "@ + json_quoted(target)
        + ";\n    for (var i = 0; i < t.length; i++) {\n        var w = t[i];\n        if (w.internalId.toString() == target) {\n            workspace.activeWindow = w;\n            found = true;\n            break;\n        }\n    }\n    output_result(found ? \"activated\" : \"not_found\");\n"@
}

/// Builds the activation script for the window whose id is `target_id`.
pub fn build_activate_script(target_id: &str) -> (r: String)
    ensures
        r@ == activate_script(target_id@),
{
    let encoded = match json_string_literal(target_id) {
        Ok(t) => t,
        Err(_) => {
            return String::new();
        },
    };
    let mut s = "\n    var t = workspace.windowList();\n    var found = false;\n    var target = ".to_owned();
    push_str(&mut s, encoded.as_str());
    push_str(
        &mut s,
        ";\n    for (var i = 0; i < t.length; i++) {\n        var w = t[i];\n        if (w.internalId.toString() == target) {\n            workspace.activeWindow = w;\n            found = true;\n            break;\n        }\n    }\n    output_result(found ? \"activated\" : \"not_found\");\n",
    );
    s
}

/// A whole script: helpers that report back to the bus name `dbus_addr`,
/// then `body`, with any exception reported as an error.
pub open spec fn kwin_script(dbus_addr: Seq<char>, body: Seq<char>) -> Seq<char> {
    "\nfunction output_result(message) {\n    callDBus(\""@ + dbus_addr
        + "\", \"/\", \"\", \"result\", message.toString());\n}\nfunction output_error(message) {\n    callDBus(\""@
        + dbus_addr + "\", \"/\", \"\", \"error\", message.toString());\n}\ntry {\n"@ + body
        + "\n} catch (e) {\n    output_error(\"exception: \" + e);\n}\n"@
}

/// Wraps a script body with the helpers that report back to `dbus_addr`.
pub fn build_kwin_script(dbus_addr: &str, body: &str) -> (r: String)
    ensures
        r@ == kwin_script(dbus_addr@, body@),
{
    let mut s = "\nfunction output_result(message) {\n    callDBus(\"".to_owned();
    push_str(&mut s, dbus_addr);
    push_str(&mut s, "\", \"/\", \"\", \"result\", message.toString());\n}\nfunction output_error(message) {\n    callDBus(\"");
    push_str(&mut s, dbus_addr);
    push_str(&mut s, "\", \"/\", \"\", \"error\", message.toString());\n}\ntry {\n");
    push_str(&mut s, body);
    push_str(&mut s, "\n} catch (e) {\n    output_error(\"exception: \" + e);\n}\n");
    s
}

/// The name a script is loaded under: unique per process and per call, so
/// that a script left loaded by a failed cleanup never collides with the
/// next one.
pub open spec fn script_name(pid: u32, counter: u64) -> Seq<char> {
    "orchestrator-window-"@ + nat_decimal(pid as nat) + "-"@ + nat_decimal(counter as nat)
}

/// Builds the name a script is loaded under.
pub fn build_script_name(pid: u32, counter: u64) -> (r: String)
    ensures
        r@ == script_name(pid, counter),
{
    let mut s = "orchestrator-window-".to_owned();
    push_u64(&mut s, pid as u64);
    push_str(&mut s, "-");
    push_u64(&mut s, counter);
    s
}

/// The object path of a loaded script, or the refusal a negative
/// `loadScript` reply means.
pub fn script_object_path(script_id: i32) -> (r: Result<String, WindowError>)
    ensures
        script_id < 0 ==> (r matches Err(WindowError::BackendUnavailable(m)) && m@ == "loadScript returned "@
            + int_decimal(script_id as int) + " (a script with this name may already be loaded)"@),
        script_id >= 0 ==> (r matches Ok(p) && p@ == "/Scripting/Script"@ + nat_decimal(script_id as nat)),
{
    if script_id < 0 {
        let mut m = "loadScript returned ".to_owned();
        push_i64(&mut m, script_id as i64);
        push_str(&mut m, " (a script with this name may already be loaded)");
        Err(WindowError::BackendUnavailable(m))
    } else {
        let mut p = "/Scripting/Script".to_owned();
        push_u64(&mut p, script_id as u64);
        Ok(p)
    }
}

/// Whether an incoming bus message is a script's call back: a method call
/// addressed to the object path `/`.
pub fn is_script_callback(is_method_call: bool, path: Option<&str>) -> (r: bool)
    ensures
        r == (is_method_call && (path matches Some(p) && p@ == "/"@)),
{
    match path {
        Some(p) => is_method_call && crate::text::str_eq(p, "/"),
        None => false,
    }
}

/// What one call back from a script means: `result` carries the payload,
/// `error` a script failure; any other member is not ours and is skipped.
pub fn callback_outcome(member: &str, payload: String) -> (r: Option<Result<String, WindowError>>)
    ensures
        member@ == "result"@ ==> (r matches Some(Ok(p)) && p@ == payload@),
        member@ == "error"@ ==> (r matches Some(Err(WindowError::BackendUnavailable(m))) && m@
            == "KWin script error: "@ + payload@),
        member@ != "result"@ && member@ != "error"@ ==> r is None,
{
    proof {
        reveal_strlit("result");
        reveal_strlit("error");
    }
    if crate::text::str_eq(member, "result") {
        assert("result"@.len() != "error"@.len());
        Some(Ok(payload))
    } else if crate::text::str_eq(member, "error") {
        let mut m = "KWin script error: ".to_owned();
        push_str(&mut m, payload.as_str());
        Some(Err(WindowError::BackendUnavailable(m)))
    } else {
        None
    }
}

} // verus!
