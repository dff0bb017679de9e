//! The colon-separated step notation of `profile add`/`edit`'s `--input` and
//! `--step` flags, and the `+`-joined key-combo notation inside it.
//!
//! | step   | macro (`--step`)                         | repeat (`--input`) |
//! |--------|------------------------------------------|--------------------|
//! | key    | `key:<combo>:<delay_ms>`                 | `key:<combo>`      |
//! | click  | `click:<left|right|middle>:<x,y|cursor>:<delay_ms>` | rejected |
//! | drag   | `drag:<x,y|cursor>:<x,y|cursor>:<delay_ms>` | rejected        |
//! | scroll | `scroll:<dx>,<dy>:<delay_ms>`            | `scroll:<dx>,<dy>` |
use vstd::prelude::*;

use crate::action::{ClickPosition, MacroStep, MacroStepModel};
use crate::hotkey::{KeyCombo, KeyComboModel, Modifier};
use crate::input::{InputEvent, InputEventModel, MouseButton};
use crate::text::{
    char_vec_views, chars_eq, chars_of, find_char, first_index_of, lemma_split_nonempty, lower_eq, lower_seq,
    parse_i32_chars, parse_signed, parse_u32_chars, parse_unsigned, split_chars, split_seq, string_of_chars, string_of_range,
    debug_quoted, debug_str, nat_decimal, push_str, push_u64, lemma_split_append, lemma_split_without_sep,
    all_digits, digit_value, digits_value,
};

verus! {

/// Why a piece of notation was rejected.
#[derive(Debug, PartialEq, Eq)]
pub enum NotationError {
    UnknownStepKind(String),
    WrongFieldCount { kind: String, expected: usize, got: usize },
    UnrecognizedModifierOrEmptyKey(String),
    InvalidCoordinates(String),
    InvalidButton(String),
    InvalidDelay(String),
    NotAllowedInRepeatMode(String),
}

/// The content of a `NotationError`.
pub enum NotationErrorModel {
    UnknownStepKind(Seq<char>),
    WrongFieldCount { kind: Seq<char>, expected: usize, got: usize },
    UnrecognizedModifierOrEmptyKey(Seq<char>),
    InvalidCoordinates(Seq<char>),
    InvalidButton(Seq<char>),
    InvalidDelay(Seq<char>),
    NotAllowedInRepeatMode(Seq<char>),
}

impl DeepView for NotationError {
    type V = NotationErrorModel;

    open spec fn deep_view(&self) -> NotationErrorModel {
        match self {
            NotationError::UnknownStepKind(s) => NotationErrorModel::UnknownStepKind(s@),
            NotationError::WrongFieldCount { kind, expected, got } => NotationErrorModel::WrongFieldCount {
                kind: kind@,
                expected: *expected,
                got: *got,
            },
            NotationError::UnrecognizedModifierOrEmptyKey(s) => NotationErrorModel::UnrecognizedModifierOrEmptyKey(s@),
            NotationError::InvalidCoordinates(s) => NotationErrorModel::InvalidCoordinates(s@),
            NotationError::InvalidButton(s) => NotationErrorModel::InvalidButton(s@),
            NotationError::InvalidDelay(s) => NotationErrorModel::InvalidDelay(s@),
            NotationError::NotAllowedInRepeatMode(s) => NotationErrorModel::NotAllowedInRepeatMode(s@),
        }
    }
}

// ---------------------------------------------------------------------------
// Key combos
// ---------------------------------------------------------------------------

/// The modifier a `+`-separated combo part names (case-insensitively).
pub open spec fn modifier_word(part: Seq<char>) -> Option<Modifier> {
    let w = lower_seq(part);
    if w == "ctrl"@ || w == "control"@ {
        Some(Modifier::Ctrl)
    } else if w == "shift"@ {
        Some(Modifier::Shift)
    } else if w == "alt"@ {
        Some(Modifier::Alt)
    } else if w == "meta"@ || w == "super"@ || w == "win"@ {
        Some(Modifier::Meta)
    } else {
        None
    }
}

/// The modifiers named by `parts`, or `None` if one part names none.
pub open spec fn modifiers_of(parts: Seq<Seq<char>>) -> Option<Seq<Modifier>>
    decreases parts.len(),
{
    if parts.len() == 0 {
        Some(Seq::empty())
    } else {
        match (modifiers_of(parts.drop_last()), modifier_word(parts.last())) {
            (Some(ms), Some(m)) => Some(ms.push(m)),
            _ => None,
        }
    }
}

/// A key combo in `+` notation: modifiers, then the key, e.g. `Ctrl+Alt+F5`
/// or a bare `A`. Empty input or any empty part is rejected, as is a
/// modifier part that names no modifier. The key is kept verbatim.
pub open spec fn combo_notation(s: Seq<char>) -> Option<KeyComboModel> {
    let parts = split_seq(s, '+');
    if s.len() == 0 {
        None
    } else if exists|i: int| 0 <= i < parts.len() && (#[trigger] parts[i]).len() == 0 {
        None
    } else {
        match modifiers_of(parts.drop_last()) {
            Some(ms) => Some(KeyComboModel { modifiers: ms, key: parts.last() }),
            None => None,
        }
    }
}

/// The modifier a combo part names, compared case-insensitively.
pub fn modifier_of(part: &Vec<char>) -> (r: Option<Modifier>)
    ensures
        r == modifier_word(part@),
{
    proof {
        reveal_strlit("ctrl");
        reveal_strlit("control");
        reveal_strlit("shift");
        reveal_strlit("alt");
        reveal_strlit("meta");
        reveal_strlit("super");
        reveal_strlit("win");
    }
    if lower_eq(part, &chars_of("ctrl")) || lower_eq(part, &chars_of("control")) {
        Some(Modifier::Ctrl)
    } else if lower_eq(part, &chars_of("shift")) {
        Some(Modifier::Shift)
    } else if lower_eq(part, &chars_of("alt")) {
        Some(Modifier::Alt)
    } else if lower_eq(part, &chars_of("meta")) || lower_eq(part, &chars_of("super")) || lower_eq(
        part,
        &chars_of("win"),
    ) {
        Some(Modifier::Meta)
    } else {
        None
    }
}

/// Parses `+` combo notation held as characters.
pub fn parse_combo_chars(v: &Vec<char>) -> (r: Result<KeyCombo, NotationError>)
    ensures
        match combo_notation(v@) {
            Some(m) => r matches Ok(c) && c.deep_view() == m,
            None => r matches Err(e) && e.deep_view() == NotationErrorModel::UnrecognizedModifierOrEmptyKey(v@),
        },
{
    if v.len() == 0 {
        return Err(NotationError::UnrecognizedModifierOrEmptyKey(string_of_chars(v)));
    }
    let parts = split_chars(v, '+');
    let ghost ps = split_seq(v@, '+');
    proof {
        lemma_split_nonempty(v@, '+');
    }
    let mut i: usize = 0;
    while i < parts.len()
        invariant
            char_vec_views(parts@) == ps,
            ps == split_seq(v@, '+'),
            i <= parts@.len(),
            forall|j: int| 0 <= j < i ==> (#[trigger] ps[j]).len() != 0,
        decreases parts@.len() - i,
    {
        if parts[i].len() == 0 {
            assert(ps[i as int].len() == 0);
            return Err(NotationError::UnrecognizedModifierOrEmptyKey(string_of_chars(v)));
        }
        i = i + 1;
    }
    let last = parts.len() - 1;
    let mut modifiers: Vec<Modifier> = Vec::new();
    let mut j: usize = 0;
    assert(ps.drop_last().take(0) =~= Seq::<Seq<char>>::empty());
    while j < last
        invariant
            char_vec_views(parts@) == ps,
            ps == split_seq(v@, '+'),
            last + 1 == parts@.len(),
            j <= last,
            modifiers_of(ps.drop_last().take(j as int)) == Some(modifiers@),
        decreases last - j,
    {
        assert(ps.drop_last().take(j + 1).drop_last() =~= ps.drop_last().take(j as int));
        assert(ps.drop_last().take(j + 1).last() == parts@[j as int]@);
        match modifier_of(&parts[j]) {
            Some(m) => {
                modifiers.push(m);
            },
            None => {
                proof {
                    lemma_modifiers_prefix_none(ps.drop_last(), j as int + 1);
                }
                return Err(NotationError::UnrecognizedModifierOrEmptyKey(string_of_chars(v)));
            },
        }
        j = j + 1;
    }
    assert(ps.drop_last().take(last as int) =~= ps.drop_last());
    let key = string_of_range(&parts[last], 0, parts[last].len());
    assert(key@ =~= ps.last());
    Ok(KeyCombo { modifiers, key })
}

proof fn lemma_modifiers_prefix_none(parts: Seq<Seq<char>>, k: int)
    requires
        0 <= k <= parts.len(),
        modifiers_of(parts.take(k)) is None,
    ensures
        modifiers_of(parts) is None,
    decreases parts.len(),
{
    if k < parts.len() {
        assert(parts.drop_last().take(k) =~= parts.take(k));
        lemma_modifiers_prefix_none(parts.drop_last(), k);
    } else {
        assert(parts.take(k) =~= parts);
    }
}

/// Parses a key combo in `+` notation, e.g. `Ctrl+Alt+F5`.
pub fn parse_combo(s: &str) -> (r: Result<KeyCombo, NotationError>)
    ensures
        match combo_notation(s@) {
            Some(m) => r matches Ok(c) && c.deep_view() == m,
            None => r matches Err(e) && e.deep_view() == NotationErrorModel::UnrecognizedModifierOrEmptyKey(s@),
        },
{
    let v = chars_of(s);
    parse_combo_chars(&v)
}


// ---------------------------------------------------------------------------
// Step fields
// ---------------------------------------------------------------------------

/// A delay field: a `u32` as `str::parse` reads one.
pub open spec fn delay_notation(s: Seq<char>) -> Result<u32, NotationErrorModel> {
    match parse_unsigned(s, u32::MAX as nat) {
        Some(v) => Ok(v as u32),
        None => Err(NotationErrorModel::InvalidDelay(s)),
    }
}

/// An `a,b` pair of `i32`s, split at the first comma.
pub open spec fn pair_notation(s: Seq<char>) -> Option<(i32, i32)> {
    match first_index_of(s, ',') {
        Some(k) => match (
            parse_signed(s.take(k), 0x8000_0000, i32::MAX as nat),
            parse_signed(s.skip(k + 1), 0x8000_0000, i32::MAX as nat),
        ) {
            (Some(x), Some(y)) => Some((x as i32, y as i32)),
            _ => None,
        },
        None => None,
    }
}

/// A position field: `cursor`, or `x,y`.
pub open spec fn position_notation(s: Seq<char>) -> Result<ClickPosition, NotationErrorModel> {
    if s == "cursor"@ {
        Ok(ClickPosition::AtCursor)
    } else {
        match pair_notation(s) {
            Some((x, y)) => Ok(ClickPosition::Fixed { x, y }),
            None => Err(NotationErrorModel::InvalidCoordinates(s)),
        }
    }
}

/// A scroll amount field: `dx,dy`.
pub open spec fn dx_dy_notation(s: Seq<char>) -> Result<(i32, i32), NotationErrorModel> {
    match pair_notation(s) {
        Some(p) => Ok(p),
        None => Err(NotationErrorModel::InvalidCoordinates(s)),
    }
}

/// A button field: `left`, `right` or `middle`, in any case.
pub open spec fn button_notation(s: Seq<char>) -> Result<MouseButton, NotationErrorModel> {
    let w = lower_seq(s);
    if w == "left"@ {
        Ok(MouseButton::Left)
    } else if w == "right"@ {
        Ok(MouseButton::Right)
    } else if w == "middle"@ {
        Ok(MouseButton::Middle)
    } else {
        Err(NotationErrorModel::InvalidButton(s))
    }
}

fn parse_delay_ms(v: &Vec<char>) -> (r: Result<u32, NotationError>)
    ensures
        match delay_notation(v@) {
            Ok(d) => r matches Ok(x) && x == d,
            Err(e) => r matches Err(x) && x.deep_view() == e,
        },
{
    match parse_u32_chars(v) {
        Some(x) => Ok(x),
        None => Err(NotationError::InvalidDelay(string_of_chars(v))),
    }
}

fn parse_pair(v: &Vec<char>) -> (r: Option<(i32, i32)>)
    ensures
        r == pair_notation(v@),
{
    let n = v.len();
    match find_char(v, ',') {
        None => None,
        Some(k) => {
            assert(k < n);
            let left = slice_chars(v, 0, k);
            let right = slice_chars(v, k + 1, v.len());
            assert(left@ == v@.take(k as int));
            assert(right@ == v@.skip(k + 1));
            match (parse_i32_chars(&left), parse_i32_chars(&right)) {
                (Some(x), Some(y)) => Some((x, y)),
                _ => None,
            }
        },
    }
}

/// The characters `v[lo..hi]` as a new vector.
fn slice_chars(v: &Vec<char>, lo: usize, hi: usize) -> (r: Vec<char>)
    requires
        lo <= hi <= v@.len(),
    ensures
        r@ == v@.subrange(lo as int, hi as int),
{
    let mut r: Vec<char> = Vec::new();
    let mut i = lo;
    while i < hi
        invariant
            lo <= i <= hi,
            hi <= v@.len(),
            r@ == v@.subrange(lo as int, i as int),
        decreases hi - i,
    {
        r.push(v[i]);
        i = i + 1;
        assert(r@ =~= v@.subrange(lo as int, i as int));
    }
    r
}

fn parse_position(v: &Vec<char>) -> (r: Result<ClickPosition, NotationError>)
    ensures
        match position_notation(v@) {
            Ok(p) => r matches Ok(x) && x == p,
            Err(e) => r matches Err(x) && x.deep_view() == e,
        },
{
    if chars_eq(v, &chars_of("cursor")) {
        return Ok(ClickPosition::AtCursor);
    }
    match parse_pair(v) {
        Some((x, y)) => Ok(ClickPosition::Fixed { x, y }),
        None => Err(NotationError::InvalidCoordinates(string_of_chars(v))),
    }
}

fn parse_dx_dy(v: &Vec<char>) -> (r: Result<(i32, i32), NotationError>)
    ensures
        match dx_dy_notation(v@) {
            Ok(p) => r matches Ok(x) && x == p,
            Err(e) => r matches Err(x) && x.deep_view() == e,
        },
{
    match parse_pair(v) {
        Some(p) => Ok(p),
        None => Err(NotationError::InvalidCoordinates(string_of_chars(v))),
    }
}

fn parse_button(v: &Vec<char>) -> (r: Result<MouseButton, NotationError>)
    ensures
        match button_notation(v@) {
            Ok(b) => r matches Ok(x) && x == b,
            Err(e) => r matches Err(x) && x.deep_view() == e,
        },
{
    proof {
        reveal_strlit("left");
        reveal_strlit("right");
        reveal_strlit("middle");
    }
    if lower_eq(v, &chars_of("left")) {
        Ok(MouseButton::Left)
    } else if lower_eq(v, &chars_of("right")) {
        Ok(MouseButton::Right)
    } else if lower_eq(v, &chars_of("middle")) {
        Ok(MouseButton::Middle)
    } else {
        Err(NotationError::InvalidButton(string_of_chars(v)))
    }
}

// ---------------------------------------------------------------------------
// Whole steps
// ---------------------------------------------------------------------------

/// The field-count error for a step kind.
pub open spec fn wrong_count(kind: Seq<char>, expected: usize, got: nat) -> NotationErrorModel {
    NotationErrorModel::WrongFieldCount { kind, expected, got: got as usize }
}

/// A combo field, with its error.
pub open spec fn combo_field(s: Seq<char>) -> Result<KeyComboModel, NotationErrorModel> {
    match combo_notation(s) {
        Some(c) => Ok(c),
        None => Err(NotationErrorModel::UnrecognizedModifierOrEmptyKey(s)),
    }
}

/// A macro step in `:` notation. Fields are checked in this order: for a
/// key step the combo then the delay; for a click the delay, button, then
/// position; for a drag the delay, start, then end; for a scroll the amounts
/// then the delay. The first failing field is reported.
pub open spec fn macro_step_notation(s: Seq<char>) -> Result<MacroStepModel, NotationErrorModel> {
    let f = split_seq(s, ':');
    let kind = f[0];
    if kind == "key"@ {
        if f.len() != 3 {
            Err(wrong_count("key"@, 3, f.len()))
        } else {
            match combo_field(f[1]) {
                Err(e) => Err(e),
                Ok(combo) => match delay_notation(f[2]) {
                    Err(e) => Err(e),
                    Ok(delay_ms) => Ok(MacroStepModel::KeyPress { combo, delay_ms }),
                },
            }
        }
    } else if kind == "click"@ {
        if f.len() != 4 {
            Err(wrong_count("click"@, 4, f.len()))
        } else {
            match delay_notation(f[3]) {
                Err(e) => Err(e),
                Ok(delay_ms) => match button_notation(f[1]) {
                    Err(e) => Err(e),
                    Ok(button) => match position_notation(f[2]) {
                        Err(e) => Err(e),
                        Ok(position) => Ok(MacroStepModel::MouseClick { delay_ms, button, position }),
                    },
                },
            }
        }
    } else if kind == "drag"@ {
        if f.len() != 4 {
            Err(wrong_count("drag"@, 4, f.len()))
        } else {
            match delay_notation(f[3]) {
                Err(e) => Err(e),
                Ok(delay_ms) => match position_notation(f[1]) {
                    Err(e) => Err(e),
                    Ok(from) => match position_notation(f[2]) {
                        Err(e) => Err(e),
                        Ok(to) => Ok(MacroStepModel::Drag { delay_ms, from, to }),
                    },
                },
            }
        }
    } else if kind == "scroll"@ {
        if f.len() != 3 {
            Err(wrong_count("scroll"@, 3, f.len()))
        } else {
            match dx_dy_notation(f[1]) {
                Err(e) => Err(e),
                Ok((dx, dy)) => match delay_notation(f[2]) {
                    Err(e) => Err(e),
                    Ok(delay_ms) => Ok(MacroStepModel::Scroll { delay_ms, dx, dy }),
                },
            }
        }
    } else {
        Err(NotationErrorModel::UnknownStepKind(kind))
    }
}

/// A repeat input in `:` notation: only `key:<combo>` and
/// `scroll:<dx>,<dy>`; clicks and drags are refused outright, because a
/// repeated bare press with no release is not a click.
pub open spec fn repeat_input_notation(s: Seq<char>) -> Result<InputEventModel, NotationErrorModel> {
    let f = split_seq(s, ':');
    let kind = f[0];
    if kind == "key"@ {
        if f.len() != 2 {
            Err(wrong_count("key"@, 2, f.len()))
        } else {
            match combo_field(f[1]) {
                Err(e) => Err(e),
                Ok(combo) => Ok(InputEventModel::KeyPress(combo)),
            }
        }
    } else if kind == "scroll"@ {
        if f.len() != 2 {
            Err(wrong_count("scroll"@, 2, f.len()))
        } else {
            match dx_dy_notation(f[1]) {
                Err(e) => Err(e),
                Ok((dx, dy)) => Ok(InputEventModel::Scroll { dx, dy }),
            }
        }
    } else if kind == "click"@ {
        Err(NotationErrorModel::NotAllowedInRepeatMode("click"@))
    } else if kind == "drag"@ {
        Err(NotationErrorModel::NotAllowedInRepeatMode("drag"@))
    } else {
        Err(NotationErrorModel::UnknownStepKind(kind))
    }
}

proof fn lemma_zero_delay()
    ensures
        delay_notation("0"@) == Ok::<u32, NotationErrorModel>(0),
{
    reveal_strlit("0");
    let z = "0"@;
    assert(z.len() == 1 && z[0] == '0');
    assert(z.drop_last() =~= Seq::<char>::empty());
    assert(z.last() == '0');
    assert(digits_value(z.drop_last()) == 0);
    assert(digit_value('0') == 0);
    assert(digits_value(z) == 0);
    assert(all_digits(z));
}

/// A repeat input `key:<combo>` reads exactly as the macro step
/// `key:<combo>:0` does: the same combo, or the same error, for any combo
/// field without a `:`.
pub proof fn law_repeat_key_agrees_with_macro_key(c: Seq<char>)
    requires
        forall|i: int| 0 <= i < c.len() ==> c[i] != ':',
    ensures
        match repeat_input_notation("key:"@ + c) {
            Ok(event) => event matches InputEventModel::KeyPress(k) && macro_step_notation("key:"@ + c + ":0"@)
                == Ok::<MacroStepModel, NotationErrorModel>(MacroStepModel::KeyPress { combo: k, delay_ms: 0 }),
            Err(e) => macro_step_notation("key:"@ + c + ":0"@) == Err::<MacroStepModel, NotationErrorModel>(e),
        },
{
    reveal_strlit("key:");
    reveal_strlit("key");
    reveal_strlit(":0");
    let key = "key"@;
    assert(key.len() == 3 && key[0] == 'k' && key[1] == 'e' && key[2] == 'y');
    lemma_split_without_sep(key, ':');
    assert("key:"@ + c =~= key + seq![':'] + c);
    lemma_split_append(key, c, ':');
    let s = "key:"@ + c;
    reveal_strlit("0");
    assert("0"@.len() == 1 && "0"@[0] == '0');
    lemma_split_without_sep("0"@, ':');
    assert("key:"@ + c + ":0"@ =~= s + seq![':'] + "0"@);
    lemma_split_append(s, "0"@, ':');
    assert(split_seq(s, ':') =~= seq![key, c]);
    assert(split_seq(s + seq![':'] + "0"@, ':') =~= seq![key, c, "0"@]);
    lemma_zero_delay();
}

/// A repeat input `scroll:<dx>,<dy>` reads exactly as the macro step
/// `scroll:<dx>,<dy>:0` does: the same amounts, or the same error, for any
/// amounts field without a `:`.
pub proof fn law_repeat_scroll_agrees_with_macro_scroll(d: Seq<char>)
    requires
        forall|i: int| 0 <= i < d.len() ==> d[i] != ':',
    ensures
        match repeat_input_notation("scroll:"@ + d) {
            Ok(event) => event matches InputEventModel::Scroll { dx, dy } && macro_step_notation(
                "scroll:"@ + d + ":0"@,
            ) == Ok::<MacroStepModel, NotationErrorModel>(MacroStepModel::Scroll { delay_ms: 0, dx, dy }),
            Err(e) => macro_step_notation("scroll:"@ + d + ":0"@) == Err::<MacroStepModel, NotationErrorModel>(e),
        },
{
    reveal_strlit("scroll:");
    reveal_strlit("scroll");
    reveal_strlit("key");
    reveal_strlit("click");
    reveal_strlit("drag");
    reveal_strlit(":0");
    reveal_strlit("0");
    let kind = "scroll"@;
    assert(kind.len() == 6);
    assert(forall|i: int| 0 <= i < kind.len() ==> kind[i] != ':');
    lemma_split_without_sep(kind, ':');
    assert("scroll:"@ + d =~= kind + seq![':'] + d);
    lemma_split_append(kind, d, ':');
    let s = "scroll:"@ + d;
    assert("0"@.len() == 1 && "0"@[0] == '0');
    lemma_split_without_sep("0"@, ':');
    assert("scroll:"@ + d + ":0"@ =~= s + seq![':'] + "0"@);
    lemma_split_append(s, "0"@, ':');
    assert(split_seq(s, ':') =~= seq![kind, d]);
    assert(split_seq(s + seq![':'] + "0"@, ':') =~= seq![kind, d, "0"@]);
    assert(kind != "key"@ && kind != "click"@ && kind != "drag"@);
    lemma_zero_delay();
}

fn field_count_error(kind: &str, expected: usize, got: usize) -> (r: NotationError)
    ensures
        r.deep_view() == wrong_count(kind@, expected, got as nat),
{
    NotationError::WrongFieldCount { kind: kind.to_owned(), expected, got }
}

/// Parses a macro step, per `macro_step_notation`.
pub fn parse_macro_step(s: &str) -> (r: Result<MacroStep, NotationError>)
    ensures
        match macro_step_notation(s@) {
            Ok(m) => r matches Ok(x) && x.deep_view() == m,
            Err(e) => r matches Err(x) && x.deep_view() == e,
        },
{
    let v = chars_of(s);
    let fields = split_chars(&v, ':');
    let ghost f = split_seq(s@, ':');
    proof {
        lemma_split_nonempty(s@, ':');
    }
    assert(fields@[0]@ == f[0]);
    let kind = &fields[0];
    let n = fields.len();
    if chars_eq(kind, &chars_of("key")) {
        if n != 3 {
            return Err(field_count_error("key", 3, n));
        }
        assert(fields@[1]@ == f[1] && fields@[2]@ == f[2]);
        let combo = parse_combo_chars(&fields[1])?;
        let delay_ms = parse_delay_ms(&fields[2])?;
        Ok(MacroStep::KeyPress { combo, delay_ms })
    } else if chars_eq(kind, &chars_of("click")) {
        if n != 4 {
            return Err(field_count_error("click", 4, n));
        }
        assert(fields@[1]@ == f[1] && fields@[2]@ == f[2] && fields@[3]@ == f[3]);
        let delay_ms = parse_delay_ms(&fields[3])?;
        let button = parse_button(&fields[1])?;
        let position = parse_position(&fields[2])?;
        Ok(MacroStep::MouseClick { delay_ms, button, position })
    } else if chars_eq(kind, &chars_of("drag")) {
        if n != 4 {
            return Err(field_count_error("drag", 4, n));
        }
        assert(fields@[1]@ == f[1] && fields@[2]@ == f[2] && fields@[3]@ == f[3]);
        let delay_ms = parse_delay_ms(&fields[3])?;
        let from = parse_position(&fields[1])?;
        let to = parse_position(&fields[2])?;
        Ok(MacroStep::Drag { delay_ms, from, to })
    } else if chars_eq(kind, &chars_of("scroll")) {
        if n != 3 {
            return Err(field_count_error("scroll", 3, n));
        }
        assert(fields@[1]@ == f[1] && fields@[2]@ == f[2]);
        let (dx, dy) = parse_dx_dy(&fields[1])?;
        let delay_ms = parse_delay_ms(&fields[2])?;
        Ok(MacroStep::Scroll { delay_ms, dx, dy })
    } else {
        Err(NotationError::UnknownStepKind(string_of_chars(kind)))
    }
}

/// Parses a repeat input, per `repeat_input_notation`.
pub fn parse_repeat_input(s: &str) -> (r: Result<InputEvent, NotationError>)
    ensures
        match repeat_input_notation(s@) {
            Ok(m) => r matches Ok(x) && x.deep_view() == m,
            Err(e) => r matches Err(x) && x.deep_view() == e,
        },
{
    let v = chars_of(s);
    let fields = split_chars(&v, ':');
    let ghost f = split_seq(s@, ':');
    proof {
        lemma_split_nonempty(s@, ':');
    }
    assert(fields@[0]@ == f[0]);
    let kind = &fields[0];
    let n = fields.len();
    if chars_eq(kind, &chars_of("key")) {
        if n != 2 {
            return Err(field_count_error("key", 2, n));
        }
        assert(fields@[1]@ == f[1]);
        let combo = parse_combo_chars(&fields[1])?;
        Ok(InputEvent::KeyPress(combo))
    } else if chars_eq(kind, &chars_of("scroll")) {
        if n != 2 {
            return Err(field_count_error("scroll", 2, n));
        }
        assert(fields@[1]@ == f[1]);
        let (dx, dy) = parse_dx_dy(&fields[1])?;
        Ok(InputEvent::Scroll { dx, dy })
    } else if chars_eq(kind, &chars_of("click")) {
        Err(NotationError::NotAllowedInRepeatMode("click".to_owned()))
    } else if chars_eq(kind, &chars_of("drag")) {
        Err(NotationError::NotAllowedInRepeatMode("drag".to_owned()))
    } else {
        Err(NotationError::UnknownStepKind(string_of_chars(kind)))
    }
}


// ---------------------------------------------------------------------------
// Messages
// ---------------------------------------------------------------------------

/// The text a notation error is shown with.
pub open spec fn notation_message(e: NotationErrorModel) -> Seq<char> {
    match e {
        NotationErrorModel::UnknownStepKind(k) => "unknown step kind "@ + debug_quoted(k)
            + " (expected key/click/drag/scroll)"@,
        NotationErrorModel::WrongFieldCount { kind, expected, got } => kind + " notation expects "@
            + nat_decimal(expected as nat) + " colon-separated fields, got "@ + nat_decimal(got as nat),
        NotationErrorModel::UnrecognizedModifierOrEmptyKey(s) => "could not parse key combo "@ + debug_quoted(s),
        NotationErrorModel::InvalidCoordinates(s) => "invalid position "@ + debug_quoted(s)
            + " (expected \"x,y\" or \"cursor\")"@,
        NotationErrorModel::InvalidButton(s) => "invalid mouse button "@ + debug_quoted(s)
            + " (expected left/right/middle)"@,
        NotationErrorModel::InvalidDelay(s) => "invalid delay_ms "@ + debug_quoted(s)
            + " (expected a non-negative integer)"@,
        NotationErrorModel::NotAllowedInRepeatMode(kind) => kind
            + " is not allowed with --action repeat (a repeated bare press has no release, which doesn't correspond to a real click/drag) -- use --action macro --loop instead"@,
    }
}

impl NotationError {
    /// The text this error is shown with.
    pub fn message(&self) -> (r: String)
        ensures
            r@ == notation_message(self.deep_view()),
    {
        let mut m = String::new();
        match self {
            NotationError::UnknownStepKind(k) => {
                push_str(&mut m, "unknown step kind ");
                push_str(&mut m, debug_str(k.as_str()).as_str());
                push_str(&mut m, " (expected key/click/drag/scroll)");
            },
            NotationError::WrongFieldCount { kind, expected, got } => {
                push_str(&mut m, kind.as_str());
                push_str(&mut m, " notation expects ");
                push_u64(&mut m, *expected as u64);
                push_str(&mut m, " colon-separated fields, got ");
                push_u64(&mut m, *got as u64);
            },
            NotationError::UnrecognizedModifierOrEmptyKey(s) => {
                push_str(&mut m, "could not parse key combo ");
                push_str(&mut m, debug_str(s.as_str()).as_str());
            },
            NotationError::InvalidCoordinates(s) => {
                push_str(&mut m, "invalid position ");
                push_str(&mut m, debug_str(s.as_str()).as_str());
                push_str(&mut m, " (expected \"x,y\" or \"cursor\")");
            },
            NotationError::InvalidButton(s) => {
                push_str(&mut m, "invalid mouse button ");
                push_str(&mut m, debug_str(s.as_str()).as_str());
                push_str(&mut m, " (expected left/right/middle)");
            },
            NotationError::InvalidDelay(s) => {
                push_str(&mut m, "invalid delay_ms ");
                push_str(&mut m, debug_str(s.as_str()).as_str());
                push_str(&mut m, " (expected a non-negative integer)");
            },
            NotationError::NotAllowedInRepeatMode(kind) => {
                push_str(&mut m, kind.as_str());
                push_str(
                    &mut m,
                    " is not allowed with --action repeat (a repeated bare press has no release, which doesn't correspond to a real click/drag) -- use --action macro --loop instead",
                );
            },
        }
        assert(m@ =~= notation_message(self.deep_view()));
        m
    }
}

} // verus!
