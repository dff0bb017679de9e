//! The ydotool input backend: how each synthetic input event becomes the
//! argument list of one `ydotool` invocation, and where the `ydotoold`
//! socket is. Spawning `ydotool` and probing the socket are carried out by
//! the application around this library.
//!
//! `ydotool` 1.0.4's surface: `key <code>:<0|1> ...`; `click <byte>`, whose
//! byte ORs a button id (0x00 left, 0x01 right, 0x02 middle) with 0x40
//! (press) or 0x80 (release); `mousemove [--absolute] -- <x> <y>`; and wheel
//! motion as `mousemove --wheel -- <dx> <dy>`.
use vstd::prelude::*;

use crate::hotkey::{KeyCombo, Modifier};
use crate::input::{InjectError, InputEvent, InputEventModel, InputInjector, MouseButton};
use crate::text::{
    chars_eq, chars_of, hex_byte, i64_to_string, int_decimal, nat_decimal, push_char, push_hex_byte, push_str,
    push_u64, string_views, upper_chars, upper_seq,
};

verus! {

/// The input injector that shells out to `ydotool`.
pub struct YdotoolInputInjector {
    socket_path: String,
}

/// `ydotool`'s default socket path for a user: `/run/user/<uid>/.ydotool_socket`.
pub open spec fn default_socket_path(uid: u32) -> Seq<char> {
    "/run/user/"@ + nat_decimal(uid as nat) + "/.ydotool_socket"@
}

/// The socket path `ydotool` itself would use: the `YDOTOOL_SOCKET`
/// override when set, else the per-user default.
pub open spec fn socket_path_for(env_override: Option<Seq<char>>, uid: u32) -> Seq<char> {
    match env_override {
        Some(p) => p,
        None => default_socket_path(uid),
    }
}

/// Resolves the socket path from the `YDOTOOL_SOCKET` value (if set) and the
/// current user's uid.
pub fn resolve_socket_path(env_override: Option<String>, uid: u32) -> (r: String)
    ensures
        r@ == socket_path_for(
            match env_override {
                Some(p) => Some(p@),
                None => None,
            },
            uid,
        ),
{
    match env_override {
        Some(path) => path,
        None => {
            let mut p = "/run/user/".to_owned();
            push_u64(&mut p, uid as u64);
            push_str(&mut p, "/.ydotool_socket");
            p
        },
    }
}

impl YdotoolInputInjector {
    /// The socket this injector talks to.
    pub closed spec fn socket(&self) -> Seq<char> {
        self.socket_path@
    }

    /// An injector on the socket `ydotool` would resolve for the given
    /// `YDOTOOL_SOCKET` value and uid.
    pub fn new(env_override: Option<String>, uid: u32) -> (r: Self)
        ensures
            r.socket() == socket_path_for(
                match env_override {
                    Some(p) => Some(p@),
                    None => None,
                },
                uid,
            ),
    {
        YdotoolInputInjector { socket_path: resolve_socket_path(env_override, uid) }
    }

    /// An injector on exactly the given socket path.
    pub fn with_socket_path(path: &str) -> (r: Self)
        ensures
            r.socket() == path@,
    {
        YdotoolInputInjector { socket_path: path.to_owned() }
    }

    /// The socket path, for the application that spawns `ydotool`.
    pub fn socket_path(&self) -> (r: &str)
        ensures
            r@ == self.socket(),
    {
        self.socket_path.as_str()
    }
}

impl InputInjector for YdotoolInputInjector {
    /// Always true: uinput input is global and follows focus.
    fn requires_focus_steal_for_window_targeting(&self) -> (r: bool)
        ensures
            r,
    {
        true
    }

    fn backend_name(&self) -> (r: &'static str)
        ensures
            r@ == "ydotool"@,
    {
        "ydotool"
    }
}

// ---------------------------------------------------------------------------
// Key names to evdev codes (linux/input-event-codes.h)
// ---------------------------------------------------------------------------

/// A letter key `A`..`Z`. Its evdev code, of an upper-cased key name.
pub open spec fn letter_code(u: Seq<char>) -> Option<u32> {
    if u == "A"@ {
        Some(30u32)
    } else if u == "B"@ {
        Some(48u32)
    } else if u == "C"@ {
        Some(46u32)
    } else if u == "D"@ {
        Some(32u32)
    } else if u == "E"@ {
        Some(18u32)
    } else if u == "F"@ {
        Some(33u32)
    } else if u == "G"@ {
        Some(34u32)
    } else if u == "H"@ {
        Some(35u32)
    } else if u == "I"@ {
        Some(23u32)
    } else if u == "J"@ {
        Some(36u32)
    } else if u == "K"@ {
        Some(37u32)
    } else if u == "L"@ {
        Some(38u32)
    } else if u == "M"@ {
        Some(50u32)
    } else if u == "N"@ {
        Some(49u32)
    } else if u == "O"@ {
        Some(24u32)
    } else if u == "P"@ {
        Some(25u32)
    } else if u == "Q"@ {
        Some(16u32)
    } else if u == "R"@ {
        Some(19u32)
    } else if u == "S"@ {
        Some(31u32)
    } else if u == "T"@ {
        Some(20u32)
    } else if u == "U"@ {
        Some(22u32)
    } else if u == "V"@ {
        Some(47u32)
    } else if u == "W"@ {
        Some(17u32)
    } else if u == "X"@ {
        Some(45u32)
    } else if u == "Y"@ {
        Some(21u32)
    } else if u == "Z"@ {
        Some(44u32)
    } else {
        None
    }
}

/// A digit key `0`..`9`. Its evdev code, of an upper-cased key name.
pub open spec fn digit_code(u: Seq<char>) -> Option<u32> {
    if u == "0"@ {
        Some(11u32)
    } else if u == "1"@ {
        Some(2u32)
    } else if u == "2"@ {
        Some(3u32)
    } else if u == "3"@ {
        Some(4u32)
    } else if u == "4"@ {
        Some(5u32)
    } else if u == "5"@ {
        Some(6u32)
    } else if u == "6"@ {
        Some(7u32)
    } else if u == "7"@ {
        Some(8u32)
    } else if u == "8"@ {
        Some(9u32)
    } else if u == "9"@ {
        Some(10u32)
    } else {
        None
    }
}

/// A function key `F1`..`F12`. Its evdev code, of an upper-cased key name.
pub open spec fn function_key_code(u: Seq<char>) -> Option<u32> {
    if u == "F1"@ {
        Some(59u32)
    } else if u == "F2"@ {
        Some(60u32)
    } else if u == "F3"@ {
        Some(61u32)
    } else if u == "F4"@ {
        Some(62u32)
    } else if u == "F5"@ {
        Some(63u32)
    } else if u == "F6"@ {
        Some(64u32)
    } else if u == "F7"@ {
        Some(65u32)
    } else if u == "F8"@ {
        Some(66u32)
    } else if u == "F9"@ {
        Some(67u32)
    } else if u == "F10"@ {
        Some(68u32)
    } else if u == "F11"@ {
        Some(87u32)
    } else if u == "F12"@ {
        Some(88u32)
    } else {
        None
    }
}

/// A named key: `RETURN`/`ENTER`, `ESCAPE`, `TAB`, `SPACE`, `BACKSPACE`, `DELETE`, the arrows, `HOME`, `END`, `PAGEUP`, `PAGEDOWN`. Its evdev code, of an upper-cased key name.
pub open spec fn named_key_code(u: Seq<char>) -> Option<u32> {
    if u == "RETURN"@ {
        Some(28u32)
    } else if u == "ENTER"@ {
        Some(28u32)
    } else if u == "ESCAPE"@ {
        Some(1u32)
    } else if u == "TAB"@ {
        Some(15u32)
    } else if u == "SPACE"@ {
        Some(57u32)
    } else if u == "BACKSPACE"@ {
        Some(14u32)
    } else if u == "DELETE"@ {
        Some(111u32)
    } else if u == "UP"@ {
        Some(103u32)
    } else if u == "DOWN"@ {
        Some(108u32)
    } else if u == "LEFT"@ {
        Some(105u32)
    } else if u == "RIGHT"@ {
        Some(106u32)
    } else if u == "HOME"@ {
        Some(102u32)
    } else if u == "END"@ {
        Some(107u32)
    } else if u == "PAGEUP"@ {
        Some(104u32)
    } else if u == "PAGEDOWN"@ {
        Some(109u32)
    } else {
        None
    }
}

fn letter_code_of(up: &Vec<char>) -> (r: Option<u32>)
    ensures
        r == letter_code(up@),
{
    if chars_eq(up, &chars_of("A")) {
        return Some(30);
    }
    if chars_eq(up, &chars_of("B")) {
        return Some(48);
    }
    if chars_eq(up, &chars_of("C")) {
        return Some(46);
    }
    if chars_eq(up, &chars_of("D")) {
        return Some(32);
    }
    if chars_eq(up, &chars_of("E")) {
        return Some(18);
    }
    if chars_eq(up, &chars_of("F")) {
        return Some(33);
    }
    if chars_eq(up, &chars_of("G")) {
        return Some(34);
    }
    if chars_eq(up, &chars_of("H")) {
        return Some(35);
    }
    if chars_eq(up, &chars_of("I")) {
        return Some(23);
    }
    if chars_eq(up, &chars_of("J")) {
        return Some(36);
    }
    if chars_eq(up, &chars_of("K")) {
        return Some(37);
    }
    if chars_eq(up, &chars_of("L")) {
        return Some(38);
    }
    if chars_eq(up, &chars_of("M")) {
        return Some(50);
    }
    if chars_eq(up, &chars_of("N")) {
        return Some(49);
    }
    if chars_eq(up, &chars_of("O")) {
        return Some(24);
    }
    if chars_eq(up, &chars_of("P")) {
        return Some(25);
    }
    if chars_eq(up, &chars_of("Q")) {
        return Some(16);
    }
    if chars_eq(up, &chars_of("R")) {
        return Some(19);
    }
    if chars_eq(up, &chars_of("S")) {
        return Some(31);
    }
    if chars_eq(up, &chars_of("T")) {
        return Some(20);
    }
    if chars_eq(up, &chars_of("U")) {
        return Some(22);
    }
    if chars_eq(up, &chars_of("V")) {
        return Some(47);
    }
    if chars_eq(up, &chars_of("W")) {
        return Some(17);
    }
    if chars_eq(up, &chars_of("X")) {
        return Some(45);
    }
    if chars_eq(up, &chars_of("Y")) {
        return Some(21);
    }
    if chars_eq(up, &chars_of("Z")) {
        return Some(44);
    }
    None
}

fn digit_code_of(up: &Vec<char>) -> (r: Option<u32>)
    ensures
        r == digit_code(up@),
{
    if chars_eq(up, &chars_of("0")) {
        return Some(11);
    }
    if chars_eq(up, &chars_of("1")) {
        return Some(2);
    }
    if chars_eq(up, &chars_of("2")) {
        return Some(3);
    }
    if chars_eq(up, &chars_of("3")) {
        return Some(4);
    }
    if chars_eq(up, &chars_of("4")) {
        return Some(5);
    }
    if chars_eq(up, &chars_of("5")) {
        return Some(6);
    }
    if chars_eq(up, &chars_of("6")) {
        return Some(7);
    }
    if chars_eq(up, &chars_of("7")) {
        return Some(8);
    }
    if chars_eq(up, &chars_of("8")) {
        return Some(9);
    }
    if chars_eq(up, &chars_of("9")) {
        return Some(10);
    }
    None
}

fn function_key_code_of(up: &Vec<char>) -> (r: Option<u32>)
    ensures
        r == function_key_code(up@),
{
    if chars_eq(up, &chars_of("F1")) {
        return Some(59);
    }
    if chars_eq(up, &chars_of("F2")) {
        return Some(60);
    }
    if chars_eq(up, &chars_of("F3")) {
        return Some(61);
    }
    if chars_eq(up, &chars_of("F4")) {
        return Some(62);
    }
    if chars_eq(up, &chars_of("F5")) {
        return Some(63);
    }
    if chars_eq(up, &chars_of("F6")) {
        return Some(64);
    }
    if chars_eq(up, &chars_of("F7")) {
        return Some(65);
    }
    if chars_eq(up, &chars_of("F8")) {
        return Some(66);
    }
    if chars_eq(up, &chars_of("F9")) {
        return Some(67);
    }
    if chars_eq(up, &chars_of("F10")) {
        return Some(68);
    }
    if chars_eq(up, &chars_of("F11")) {
        return Some(87);
    }
    if chars_eq(up, &chars_of("F12")) {
        return Some(88);
    }
    None
}

fn named_key_code_of(up: &Vec<char>) -> (r: Option<u32>)
    ensures
        r == named_key_code(up@),
{
    if chars_eq(up, &chars_of("RETURN")) {
        return Some(28);
    }
    if chars_eq(up, &chars_of("ENTER")) {
        return Some(28);
    }
    if chars_eq(up, &chars_of("ESCAPE")) {
        return Some(1);
    }
    if chars_eq(up, &chars_of("TAB")) {
        return Some(15);
    }
    if chars_eq(up, &chars_of("SPACE")) {
        return Some(57);
    }
    if chars_eq(up, &chars_of("BACKSPACE")) {
        return Some(14);
    }
    if chars_eq(up, &chars_of("DELETE")) {
        return Some(111);
    }
    if chars_eq(up, &chars_of("UP")) {
        return Some(103);
    }
    if chars_eq(up, &chars_of("DOWN")) {
        return Some(108);
    }
    if chars_eq(up, &chars_of("LEFT")) {
        return Some(105);
    }
    if chars_eq(up, &chars_of("RIGHT")) {
        return Some(106);
    }
    if chars_eq(up, &chars_of("HOME")) {
        return Some(102);
    }
    if chars_eq(up, &chars_of("END")) {
        return Some(107);
    }
    if chars_eq(up, &chars_of("PAGEUP")) {
        return Some(104);
    }
    if chars_eq(up, &chars_of("PAGEDOWN")) {
        return Some(109);
    }
    None
}
/// The evdev code of an upper-cased key name, if it is one of the known keys.
pub open spec fn evdev_code(u: Seq<char>) -> Option<u32> {
    if letter_code(u) is Some {
        letter_code(u)
    } else if digit_code(u) is Some {
        digit_code(u)
    } else if function_key_code(u) is Some {
        function_key_code(u)
    } else {
        named_key_code(u)
    }
}

/// The evdev code of a key name, compared case-insensitively.
pub open spec fn key_code(name: Seq<char>) -> Option<u32> {
    evdev_code(upper_seq(name))
}

/// Portable key name to evdev code, case-insensitive; `None` for names
/// outside the table.
pub fn key_name_to_evdev(name: &str) -> (r: Option<u32>)
    ensures
        r == key_code(name@),
{
    let up = upper_chars(&chars_of(name));
    let l = letter_code_of(&up);
    if l.is_some() {
        return l;
    }
    let d = digit_code_of(&up);
    if d.is_some() {
        return d;
    }
    let f = function_key_code_of(&up);
    if f.is_some() {
        return f;
    }
    named_key_code_of(&up)
}

proof fn lemma_return_and_enter_share_a_code()
    ensures
        evdev_code("RETURN"@) == Some(28u32),
        evdev_code("ENTER"@) == Some(28u32),
{
    reveal_strlit("A");
    reveal_strlit("B");
    reveal_strlit("C");
    reveal_strlit("D");
    reveal_strlit("E");
    reveal_strlit("F");
    reveal_strlit("G");
    reveal_strlit("H");
    reveal_strlit("I");
    reveal_strlit("J");
    reveal_strlit("K");
    reveal_strlit("L");
    reveal_strlit("M");
    reveal_strlit("N");
    reveal_strlit("O");
    reveal_strlit("P");
    reveal_strlit("Q");
    reveal_strlit("R");
    reveal_strlit("S");
    reveal_strlit("T");
    reveal_strlit("U");
    reveal_strlit("V");
    reveal_strlit("W");
    reveal_strlit("X");
    reveal_strlit("Y");
    reveal_strlit("Z");
    reveal_strlit("0");
    reveal_strlit("1");
    reveal_strlit("2");
    reveal_strlit("3");
    reveal_strlit("4");
    reveal_strlit("5");
    reveal_strlit("6");
    reveal_strlit("7");
    reveal_strlit("8");
    reveal_strlit("9");
    reveal_strlit("F1");
    reveal_strlit("F2");
    reveal_strlit("F3");
    reveal_strlit("F4");
    reveal_strlit("F5");
    reveal_strlit("F6");
    reveal_strlit("F7");
    reveal_strlit("F8");
    reveal_strlit("F9");
    reveal_strlit("F10");
    reveal_strlit("F11");
    reveal_strlit("F12");
    reveal_strlit("RETURN");
    reveal_strlit("ENTER");
    reveal_strlit("ESCAPE");
    reveal_strlit("TAB");
    reveal_strlit("SPACE");
    reveal_strlit("BACKSPACE");
    reveal_strlit("DELETE");
    reveal_strlit("UP");
    reveal_strlit("DOWN");
    reveal_strlit("LEFT");
    reveal_strlit("RIGHT");
    reveal_strlit("HOME");
    reveal_strlit("END");
    reveal_strlit("PAGEUP");
    reveal_strlit("PAGEDOWN");
    assert("RETURN"@.len() == 6 && "ENTER"@.len() == 5);
}

/// Every known key has a code in `1..=111` that is no modifier's code, and
/// two known upper-cased key names share a code only when they are the
/// same name or are `RETURN` and `ENTER`.
pub proof fn law_key_codes_are_distinct(u: Seq<char>, v: Seq<char>)
    requires
        evdev_code(u) is Some,
        evdev_code(v) is Some,
    ensures
        1 <= evdev_code(u)->0 <= 111,
        evdev_code(u)->0 != 29 && evdev_code(u)->0 != 42 && evdev_code(u)->0 != 56 && evdev_code(u)->0 != 125,
        evdev_code(u) == evdev_code(v) <==> (u == v || (u == "RETURN"@ && v == "ENTER"@) || (u == "ENTER"@
            && v == "RETURN"@)),
{
    lemma_return_and_enter_share_a_code();
}

/// The same, for key names as given: compared after ASCII upper-casing.
pub proof fn law_key_names_map_to_distinct_codes(a: Seq<char>, b: Seq<char>)
    requires
        key_code(a) is Some,
        key_code(b) is Some,
    ensures
        forall|m: Modifier| key_code(a)->0 != #[trigger] modifier_code(m),
        key_code(a) == key_code(b) <==> (upper_seq(a) == upper_seq(b) || (upper_seq(a) == "RETURN"@ && upper_seq(b)
            == "ENTER"@) || (upper_seq(a) == "ENTER"@ && upper_seq(b) == "RETURN"@)),
{
    law_key_codes_are_distinct(upper_seq(a), upper_seq(b));
}

/// The evdev code of a modifier's left-hand key.
pub open spec fn modifier_code(m: Modifier) -> u32 {
    match m {
        Modifier::Ctrl => 29,
        Modifier::Shift => 42,
        Modifier::Alt => 56,
        Modifier::Meta => 125,
    }
}

/// Modifier to the evdev code of its left-hand key.
pub fn modifier_to_evdev(modifier: &Modifier) -> (r: u32)
    ensures
        r == modifier_code(*modifier),
{
    match modifier {
        Modifier::Ctrl => 29,
        Modifier::Shift => 42,
        Modifier::Alt => 56,
        Modifier::Meta => 125,
    }
}


// ---------------------------------------------------------------------------
// Argument lists
// ---------------------------------------------------------------------------

/// One `ydotool key` argument: `<code>:<state>`, state `1` pressed, `0` released.
pub open spec fn key_arg(code: u32, state: char) -> Seq<char> {
    nat_decimal(code as nat).push(':').push(state)
}

fn key_arg_string(code: u32, state: char) -> (r: String)
    ensures
        r@ == key_arg(code, state),
{
    let mut s = String::new();
    push_u64(&mut s, code as u64);
    push_char(&mut s, ':');
    push_char(&mut s, state);
    assert(s@ =~= key_arg(code, state));
    s
}

/// `key`, then each modifier pressed in listed order, then the key pressed.
pub open spec fn key_press_args(mods: Seq<Modifier>, code: u32) -> Seq<Seq<char>> {
    seq!["key"@] + mods.map_values(|m: Modifier| key_arg(modifier_code(m), '1')) + seq![key_arg(code, '1')]
}

/// `key`, then the key released, then each modifier released in reverse
/// listed order.
pub open spec fn key_release_args(mods: Seq<Modifier>, code: u32) -> Seq<Seq<char>> {
    seq!["key"@, key_arg(code, '0')] + mods.reverse().map_values(|m: Modifier| key_arg(modifier_code(m), '0'))
}

/// The message of a key name outside the table.
pub open spec fn unrecognized_key(key: Seq<char>) -> Seq<char> {
    "unrecognized key: "@ + key
}

fn unrecognized_key_error(key: &String) -> (r: InjectError)
    ensures
        r matches InjectError::Unsupported(m) && m@ == unrecognized_key(key@),
{
    let mut m = "unrecognized key: ".to_owned();
    push_str(&mut m, key.as_str());
    InjectError::Unsupported(m)
}

/// `ydotool key` arguments that press a chord: modifiers first, then the key.
pub fn build_key_press_args(combo: &KeyCombo) -> (r: Result<Vec<String>, InjectError>)
    ensures
        match key_code(combo.key@) {
            None => r matches Err(InjectError::Unsupported(m)) && m@ == unrecognized_key(combo.key@),
            Some(code) => r matches Ok(v) && string_views(v@) == key_press_args(combo.modifiers@, code),
        },
{
    let code = match key_name_to_evdev(combo.key.as_str()) {
        Some(c) => c,
        None => {
            return Err(unrecognized_key_error(&combo.key));
        },
    };
    let ghost mods = combo.modifiers@;
    let mut args: Vec<String> = Vec::new();
    args.push("key".to_owned());
    let mut i: usize = 0;
    assert(string_views(args@) =~= seq!["key"@] + mods.take(0).map_values(
        |m: Modifier| key_arg(modifier_code(m), '1'),
    ));
    while i < combo.modifiers.len()
        invariant
            mods == combo.modifiers@,
            i <= mods.len(),
            string_views(args@) == seq!["key"@] + mods.take(i as int).map_values(
                |m: Modifier| key_arg(modifier_code(m), '1'),
            ),
        decreases mods.len() - i,
    {
        let a = key_arg_string(modifier_to_evdev(&combo.modifiers[i]), '1');
        let ghost before = args@;
        args.push(a);
        assert(mods.take(i + 1) =~= mods.take(i as int).push(mods[i as int]));
        assert(string_views(args@) =~= string_views(before).push(a@));
        i = i + 1;
        assert(string_views(args@) =~= seq!["key"@] + mods.take(i as int).map_values(
            |m: Modifier| key_arg(modifier_code(m), '1'),
        ));
    }
    let last = key_arg_string(code, '1');
    let ghost before = args@;
    args.push(last);
    assert(string_views(args@) =~= string_views(before).push(last@));
    assert(mods.take(mods.len() as int) =~= mods);
    assert(string_views(args@) =~= key_press_args(mods, code));
    Ok(args)
}

/// `ydotool key` arguments that release a chord: the key first, then the
/// modifiers in reverse order, so that no bare key lands after the chord.
pub fn build_key_release_args(combo: &KeyCombo) -> (r: Result<Vec<String>, InjectError>)
    ensures
        match key_code(combo.key@) {
            None => r matches Err(InjectError::Unsupported(m)) && m@ == unrecognized_key(combo.key@),
            Some(code) => r matches Ok(v) && string_views(v@) == key_release_args(combo.modifiers@, code),
        },
{
    let code = match key_name_to_evdev(combo.key.as_str()) {
        Some(c) => c,
        None => {
            return Err(unrecognized_key_error(&combo.key));
        },
    };
    let ghost mods = combo.modifiers@;
    let ghost rev = mods.reverse();
    let mut args: Vec<String> = Vec::new();
    args.push("key".to_owned());
    let first = key_arg_string(code, '0');
    args.push(first);
    let n = combo.modifiers.len();
    let mut j: usize = n;
    assert(string_views(args@) =~= seq!["key"@, key_arg(code, '0')] + rev.take(0).map_values(
        |m: Modifier| key_arg(modifier_code(m), '0'),
    ));
    while j > 0
        invariant
            mods == combo.modifiers@,
            rev == mods.reverse(),
            n == mods.len(),
            j <= n,
            string_views(args@) == seq!["key"@, key_arg(code, '0')] + rev.take(n - j).map_values(
                |m: Modifier| key_arg(modifier_code(m), '0'),
            ),
        decreases j,
    {
        j = j - 1;
        let a = key_arg_string(modifier_to_evdev(&combo.modifiers[j]), '0');
        let ghost before = args@;
        args.push(a);
        assert(rev[n - 1 - j] == mods[j as int]);
        assert(rev.take(n - j) =~= rev.take(n - 1 - j).push(rev[n - 1 - j]));
        assert(string_views(args@) =~= string_views(before).push(a@));
        assert(string_views(args@) =~= seq!["key"@, key_arg(code, '0')] + rev.take(n - j).map_values(
            |m: Modifier| key_arg(modifier_code(m), '0'),
        ));
    }
    assert(rev.take(n as int) =~= rev);
    Ok(args)
}

/// The base id of a mouse button in a `ydotool click` byte.
pub open spec fn button_code(b: MouseButton) -> u8 {
    match b {
        MouseButton::Left => 0x00,
        MouseButton::Right => 0x01,
        MouseButton::Middle => 0x02,
    }
}

/// Mouse button to its base id in a `ydotool click` byte.
pub fn mouse_button_code(button: MouseButton) -> (r: u8)
    ensures
        r == button_code(button),
{
    match button {
        MouseButton::Left => 0x00,
        MouseButton::Right => 0x01,
        MouseButton::Middle => 0x02,
    }
}

/// The press (0x40) or release (0x80) bit of a `ydotool click` byte.
pub open spec fn click_mask(pressed: bool) -> u8 {
    if pressed {
        0x40
    } else {
        0x80
    }
}

/// `click 0x<byte>`, the byte being the button id ORed with the press or
/// release bit, in two lowercase hex digits.
pub open spec fn click_args(button: MouseButton, pressed: bool) -> Seq<Seq<char>> {
    seq!["click"@, "0x"@ + hex_byte(click_mask(pressed) | button_code(button))]
}

/// `ydotool click` arguments for one button edge.
pub fn build_click_args(button: MouseButton, pressed: bool) -> (r: Vec<String>)
    ensures
        string_views(r@) == click_args(button, pressed),
{
    let mask: u8 = if pressed {
        0x40
    } else {
        0x80
    };
    let value = mask | mouse_button_code(button);
    let mut byte = "0x".to_owned();
    push_hex_byte(&mut byte, value);
    let mut r: Vec<String> = Vec::new();
    r.push("click".to_owned());
    r.push(byte);
    assert(string_views(r@) =~= click_args(button, pressed));
    r
}

/// `mousemove --absolute -- <x> <y>`.
pub open spec fn mousemove_absolute_args(x: i32, y: i32) -> Seq<Seq<char>> {
    seq!["mousemove"@, "--absolute"@, "--"@, int_decimal(x as int), int_decimal(y as int)]
}

/// `ydotool` arguments moving the pointer to an absolute position.
pub fn build_mousemove_absolute_args(x: i32, y: i32) -> (r: Vec<String>)
    ensures
        string_views(r@) == mousemove_absolute_args(x, y),
{
    let mut r: Vec<String> = Vec::new();
    r.push("mousemove".to_owned());
    r.push("--absolute".to_owned());
    r.push("--".to_owned());
    r.push(i64_to_string(x as i64));
    r.push(i64_to_string(y as i64));
    assert(string_views(r@) =~= mousemove_absolute_args(x, y));
    r
}

/// `mousemove -- <dx> <dy>`: relative motion is `mousemove`'s default.
pub open spec fn mousemove_relative_args(dx: i32, dy: i32) -> Seq<Seq<char>> {
    seq!["mousemove"@, "--"@, int_decimal(dx as int), int_decimal(dy as int)]
}

/// `ydotool` arguments moving the pointer by an offset.
pub fn build_mousemove_relative_args(dx: i32, dy: i32) -> (r: Vec<String>)
    ensures
        string_views(r@) == mousemove_relative_args(dx, dy),
{
    let mut r: Vec<String> = Vec::new();
    r.push("mousemove".to_owned());
    r.push("--".to_owned());
    r.push(i64_to_string(dx as i64));
    r.push(i64_to_string(dy as i64));
    assert(string_views(r@) =~= mousemove_relative_args(dx, dy));
    r
}

/// `mousemove --wheel -- <dx> <dy>`: wheel motion, always relative.
pub open spec fn scroll_args(dx: i32, dy: i32) -> Seq<Seq<char>> {
    seq!["mousemove"@, "--wheel"@, "--"@, int_decimal(dx as int), int_decimal(dy as int)]
}

/// `ydotool` arguments scrolling the wheel.
pub fn build_scroll_args(dx: i32, dy: i32) -> (r: Vec<String>)
    ensures
        string_views(r@) == scroll_args(dx, dy),
{
    let mut r: Vec<String> = Vec::new();
    r.push("mousemove".to_owned());
    r.push("--wheel".to_owned());
    r.push("--".to_owned());
    r.push(i64_to_string(dx as i64));
    r.push(i64_to_string(dy as i64));
    assert(string_views(r@) =~= scroll_args(dx, dy));
    r
}

/// The `ydotool` arguments injecting an event, or the message of the key
/// name that has no evdev code.
pub open spec fn command_args(e: InputEventModel) -> Result<Seq<Seq<char>>, Seq<char>> {
    match e {
        InputEventModel::KeyPress(c) => match key_code(c.key) {
            Some(code) => Ok(key_press_args(c.modifiers, code)),
            None => Err(unrecognized_key(c.key)),
        },
        InputEventModel::KeyRelease(c) => match key_code(c.key) {
            Some(code) => Ok(key_release_args(c.modifiers, code)),
            None => Err(unrecognized_key(c.key)),
        },
        InputEventModel::MouseButtonPress(b) => Ok(click_args(b, true)),
        InputEventModel::MouseButtonRelease(b) => Ok(click_args(b, false)),
        InputEventModel::MouseMoveAbsolute { x, y } => Ok(mousemove_absolute_args(x, y)),
        InputEventModel::MouseMoveRelative { dx, dy } => Ok(mousemove_relative_args(dx, dy)),
        InputEventModel::Scroll { dx, dy } => Ok(scroll_args(dx, dy)),
    }
}

/// Maps any input event to the `ydotool` arguments that inject it.
pub fn build_command_args(event: &InputEvent) -> (r: Result<Vec<String>, InjectError>)
    ensures
        match command_args(event.deep_view()) {
            Ok(a) => r matches Ok(v) && string_views(v@) == a,
            Err(m) => r matches Err(InjectError::Unsupported(x)) && x@ == m,
        },
{
    match event {
        InputEvent::KeyPress(combo) => build_key_press_args(combo),
        InputEvent::KeyRelease(combo) => build_key_release_args(combo),
        InputEvent::MouseButtonPress(button) => Ok(build_click_args(*button, true)),
        InputEvent::MouseButtonRelease(button) => Ok(build_click_args(*button, false)),
        InputEvent::MouseMoveAbsolute { x, y } => Ok(build_mousemove_absolute_args(*x, *y)),
        InputEvent::MouseMoveRelative { dx, dy } => Ok(build_mousemove_relative_args(*dx, *dy)),
        InputEvent::Scroll { dx, dy } => Ok(build_scroll_args(*dx, *dy)),
    }
}

/// The key codes a chord presses, in order: its modifiers as listed, then
/// the key.
pub open spec fn chord_codes(mods: Seq<Modifier>, code: u32) -> Seq<u32> {
    mods.map_values(|m: Modifier| modifier_code(m)).push(code)
}

/// Releasing a chord lets go of exactly the keys that pressing it holds
/// down, in the opposite order: the press arguments are `key` and the
/// chord's codes with state 1, the release arguments `key` and the same
/// codes reversed with state 0.
pub proof fn law_release_reverses_press(mods: Seq<Modifier>, code: u32)
    ensures
        key_press_args(mods, code) == seq!["key"@] + chord_codes(mods, code).map_values(|c: u32| key_arg(c, '1')),
        key_release_args(mods, code) == seq!["key"@] + chord_codes(mods, code).reverse().map_values(
            |c: u32| key_arg(c, '0'),
        ),
{
    let codes = chord_codes(mods, code);
    assert(key_press_args(mods, code) =~= seq!["key"@] + codes.map_values(|c: u32| key_arg(c, '1')));
    let n = mods.len();
    assert(codes.reverse().len() == n + 1);
    assert forall|i: int| 0 <= i < n + 1 implies #[trigger] codes.reverse()[i] == (if i == 0 {
        code
    } else {
        modifier_code(mods.reverse()[i - 1])
    }) by {}
    assert(key_release_args(mods, code) =~= seq!["key"@] + codes.reverse().map_values(|c: u32| key_arg(c, '0')));
}

} // verus!
