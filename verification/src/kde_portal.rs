//! The KDE global-shortcuts portal backend, minus the D-Bus traffic: reading
//! the portal's trigger descriptions back into key combos, explaining the
//! portal's known refusals, and the bookkeeping of requested shortcut slots
//! and minted hotkey ids that decides which portal signals are forwarded.
//!
//! The portal, not this backend, picks the actual key combination: a
//! registration only requests a named slot, KDE's own dialog assigns the
//! keys, and the portal answers with a human-readable trigger description.
use vstd::prelude::*;

use crate::hotkey::{HotkeyError, HotkeyId, KeyCombo, KeyComboModel, Modifier};
use crate::notation::{modifier_of, modifier_word};
use crate::text::{
    char_vec_views, chars_of, contains_seq, lemma_split_nonempty, push_str, split_chars, split_seq, str_contains,
    string_of_chars,
};

verus! {

// ---------------------------------------------------------------------------
// Trigger descriptions
// ---------------------------------------------------------------------------

/// `char::is_whitespace`: the Unicode `White_Space` property.
pub open spec fn is_whitespace(c: char) -> bool {
    ||| '\u{9}' <= c <= '\u{d}'
    ||| c == ' '
    ||| c == '\u{85}'
    ||| c == '\u{a0}'
    ||| c == '\u{1680}'
    ||| '\u{2000}' <= c <= '\u{200a}'
    ||| c == '\u{2028}'
    ||| c == '\u{2029}'
    ||| c == '\u{202f}'
    ||| c == '\u{205f}'
    ||| c == '\u{3000}'
}

fn whitespace(c: char) -> (r: bool)
    ensures
        r == is_whitespace(c),
{
    ('\u{9}' <= c && c <= '\u{d}') || c == ' ' || c == '\u{85}' || c == '\u{a0}' || c == '\u{1680}' || ('\u{2000}'
        <= c && c <= '\u{200a}') || c == '\u{2028}' || c == '\u{2029}' || c == '\u{202f}' || c == '\u{205f}' || c
        == '\u{3000}'
}

/// `s` without its leading whitespace.
pub open spec fn trim_start_seq(s: Seq<char>) -> Seq<char>
    decreases s.len(),
{
    if s.len() > 0 && is_whitespace(s[0]) {
        trim_start_seq(s.drop_first())
    } else {
        s
    }
}

/// `s` without its trailing whitespace.
pub open spec fn trim_end_seq(s: Seq<char>) -> Seq<char>
    decreases s.len(),
{
    if s.len() > 0 && is_whitespace(s.last()) {
        trim_end_seq(s.drop_last())
    } else {
        s
    }
}

/// `str::trim`: `s` without leading and trailing whitespace.
pub open spec fn trim_seq(s: Seq<char>) -> Seq<char> {
    trim_end_seq(trim_start_seq(s))
}

/// `str::trim` on a character vector.
pub fn trim_chars(v: &Vec<char>) -> (r: Vec<char>)
    ensures
        r@ == trim_seq(v@),
{
    let n = v.len();
    let mut lo: usize = 0;
    assert(v@.subrange(0, n as int) =~= v@);
    while lo < n && whitespace(v[lo])
        invariant
            n == v@.len(),
            lo <= n,
            trim_start_seq(v@) == trim_start_seq(v@.subrange(lo as int, n as int)),
        decreases n - lo,
    {
        assert(v@.subrange(lo as int, n as int).drop_first() =~= v@.subrange(lo + 1, n as int));
        lo = lo + 1;
    }
    assert(trim_start_seq(v@) == v@.subrange(lo as int, n as int));
    let mut hi: usize = n;
    assert(v@.subrange(lo as int, n as int).len() > 0 ==> !is_whitespace(v@.subrange(lo as int, n as int)[0]));
    while hi > lo && whitespace(v[hi - 1])
        invariant
            n == v@.len(),
            lo <= hi <= n,
            trim_end_seq(v@.subrange(lo as int, n as int)) == trim_end_seq(v@.subrange(lo as int, hi as int)),
        decreases hi - lo,
    {
        assert(v@.subrange(lo as int, hi as int).drop_last() =~= v@.subrange(lo as int, hi - 1));
        hi = hi - 1;
    }
    let mut r: Vec<char> = Vec::new();
    let mut i: usize = lo;
    while i < hi
        invariant
            lo <= i <= hi <= n,
            n == v@.len(),
            r@ == v@.subrange(lo as int, i as int),
        decreases hi - i,
    {
        r.push(v[i]);
        i = i + 1;
        assert(r@ =~= v@.subrange(lo as int, i as int));
    }
    r
}

/// The modifiers among `parts`, in order; parts that name no modifier are
/// skipped. Names are compared after ASCII case folding, which for these
/// names agrees with full Unicode lowercasing: no other character lowercases
/// to one of their letters.
pub open spec fn known_modifiers(parts: Seq<Seq<char>>) -> Seq<Modifier>
    decreases parts.len(),
{
    if parts.len() == 0 {
        Seq::empty()
    } else {
        match modifier_word(parts.last()) {
            Some(m) => known_modifiers(parts.drop_last()).push(m),
            None => known_modifiers(parts.drop_last()),
        }
    }
}

/// What a portal trigger description such as `Ctrl+Alt+8` reads as: its
/// `+`-separated parts, trimmed; the last part is the key (casing kept),
/// the others the modifiers they name. When the last part is empty, the
/// whole description becomes the key, with no modifiers.
pub open spec fn trigger_combo(s: Seq<char>) -> KeyComboModel {
    let parts = split_seq(s, '+').map_values(|p: Seq<char>| trim_seq(p));
    if parts.last().len() > 0 {
        KeyComboModel { modifiers: known_modifiers(parts.drop_last()), key: parts.last() }
    } else {
        KeyComboModel { modifiers: Seq::empty(), key: s }
    }
}

/// Reads a portal trigger description back into a key combo, for display
/// only: it never fails, falling back to the description itself as the key.
pub fn parse_trigger_description(s: &str) -> (r: KeyCombo)
    ensures
        r.deep_view() == trigger_combo(s@),
{
    let v = chars_of(s);
    let pieces = split_chars(&v, '+');
    let ghost raw = split_seq(s@, '+');
    proof {
        lemma_split_nonempty(s@, '+');
    }
    let ghost parts = raw.map_values(|p: Seq<char>| trim_seq(p));
    let count = pieces.len();
    assert(char_vec_views(pieces@) == raw);
    assert(count == raw.len());
    let key = trim_chars(&pieces[count - 1]);
    assert(key@ == parts.last());
    if key.len() == 0 {
        return KeyCombo { modifiers: Vec::new(), key: s.to_owned() };
    }
    let mut modifiers: Vec<Modifier> = Vec::new();
    let mut i: usize = 0;
    while i + 1 < count
        invariant
            count == raw.len(),
            count >= 1,
            raw == char_vec_views(pieces@),
            parts == raw.map_values(|p: Seq<char>| trim_seq(p)),
            i + 1 <= count,
            modifiers@ == known_modifiers(parts.drop_last().take(i as int)),
        decreases count - i,
    {
        let part = trim_chars(&pieces[i]);
        assert(part@ == parts[i as int]);
        assert(parts.drop_last().take(i + 1).drop_last() =~= parts.drop_last().take(i as int));
        assert(parts.drop_last().take(i + 1).last() == parts[i as int]);
        match modifier_of(&part) {
            Some(m) => modifiers.push(m),
            None => {},
        }
        i = i + 1;
    }
    assert(parts.drop_last().take(count - 1) =~= parts.drop_last());
    KeyCombo { modifiers, key: string_of_chars(&key) }
}

// ---------------------------------------------------------------------------
// Portal refusals
// ---------------------------------------------------------------------------

/// The explanation a portal or D-Bus failure message is reported with: the
/// two refusals met in practice get their remedy spelled out, anything else
/// passes through unchanged.
pub open spec fn portal_error_text(msg: Seq<char>) -> Seq<char> {
    if contains_seq(msg, "An app id is required"@) {
        "portal rejected the request ("@ + msg
            + "): the app-id registration and the GlobalShortcuts proxy must share one zbus::Connection -- zbus::Connection::session() opens a new connection every call and does not cache/share one. See the shared-connection step in docs/superpowers/specs/2026-08-09-wayland-injection-spike-findings.md section 1b."@
    } else if contains_seq(msg, "App info not found"@) {
        "portal rejected the app id ("@ + msg
            + "): it must match an installed .desktop file (e.g. /usr/share/applications/<app_id>.desktop). See docs/superpowers/specs/2026-08-09-wayland-injection-spike-findings.md section 1b."@
    } else {
        msg
    }
}

/// Maps the text of a portal or D-Bus failure to the hotkey error it is
/// reported as.
pub fn map_portal_err_message(msg: &str) -> (r: HotkeyError)
    ensures
        r matches HotkeyError::BackendUnavailable(m) && m@ == portal_error_text(msg@),
{
    if str_contains(msg, "An app id is required") {
        let mut m = "portal rejected the request (".to_owned();
        push_str(&mut m, msg);
        push_str(
            &mut m,
            "): the app-id registration and the GlobalShortcuts proxy must share one zbus::Connection -- zbus::Connection::session() opens a new connection every call and does not cache/share one. See the shared-connection step in docs/superpowers/specs/2026-08-09-wayland-injection-spike-findings.md section 1b.",
        );
        HotkeyError::BackendUnavailable(m)
    } else if str_contains(msg, "App info not found") {
        let mut m = "portal rejected the app id (".to_owned();
        push_str(&mut m, msg);
        push_str(
            &mut m,
            "): it must match an installed .desktop file (e.g. /usr/share/applications/<app_id>.desktop). See docs/superpowers/specs/2026-08-09-wayland-injection-spike-findings.md section 1b.",
        );
        HotkeyError::BackendUnavailable(m)
    } else {
        HotkeyError::BackendUnavailable(msg.to_owned())
    }
}

// ---------------------------------------------------------------------------
// Requested shortcut slots
// ---------------------------------------------------------------------------

/// `slots` without the entries requested for `name`, order kept.
pub open spec fn without_action<T>(slots: Seq<(String, T)>, name: Seq<char>) -> Seq<(String, T)>
    decreases slots.len(),
{
    if slots.len() == 0 {
        slots
    } else {
        let rest = without_action(slots.drop_last(), name);
        if slots.last().0@ == name {
            rest
        } else {
            rest.push(slots.last())
        }
    }
}

proof fn lemma_without_action_absent<T>(slots: Seq<(String, T)>, name: Seq<char>)
    requires
        forall|i: int| 0 <= i < slots.len() ==> (#[trigger] slots[i]).0@ != name,
    ensures
        without_action(slots, name) == slots,
    decreases slots.len(),
{
    if slots.len() > 0 {
        lemma_without_action_absent(slots.drop_last(), name);
        assert(slots.drop_last().push(slots.last()) =~= slots);
    }
}

/// Drops every slot requested for `action_name`, keeping the others in order.
pub fn remove_action<T>(shortcuts: &mut Vec<(String, T)>, action_name: &str)
    ensures
        final(shortcuts)@ == without_action(old(shortcuts)@, action_name@),
{
    let ghost orig = shortcuts@;
    let ghost name = action_name@;
    let mut i: usize = 0;
    let ghost mut k: int = 0;
    assert(orig.take(0) =~= Seq::<(String, T)>::empty());
    assert(shortcuts@ =~= without_action(orig.take(0), name) + orig.skip(0));
    while i < shortcuts.len()
        invariant
            0 <= k <= orig.len(),
            name == action_name@,
            i == without_action(orig.take(k), name).len(),
            shortcuts@ == without_action(orig.take(k), name) + orig.skip(k),
        decreases orig.len() - k,
    {
        assert(orig.skip(k)[0] == orig[k]);
        assert(orig.take(k + 1).drop_last() =~= orig.take(k));
        assert(orig.take(k + 1).last() == orig[k]);
        assert(orig.skip(k).drop_first() =~= orig.skip(k + 1));
        let matches = crate::text::str_eq(shortcuts[i].0.as_str(), action_name);
        if matches {
            let _dropped = shortcuts.remove(i);
            proof {
                k = k + 1;
            }
            assert(shortcuts@ =~= without_action(orig.take(k), name) + orig.skip(k));
        } else {
            proof {
                k = k + 1;
            }
            i = i + 1;
            assert(shortcuts@ =~= without_action(orig.take(k), name) + orig.skip(k));
        }
    }
    assert(orig.take(orig.len() as int) =~= orig);
    assert(shortcuts@ =~= without_action(orig, name));
}

/// A registration that fails after requesting its slot leaves no trace:
/// when no slot was requested for `name` before, requesting one and then
/// dropping the slots named `name` gives back exactly the slots there were.
pub proof fn law_failed_registration_leaves_no_trace<T>(slots: Seq<(String, T)>, name: String, slot: T)
    requires
        forall|i: int| 0 <= i < slots.len() ==> (#[trigger] slots[i]).0@ != name@,
    ensures
        without_action(slots.push((name, slot)), name@) == slots,
{
    let pushed = slots.push((name, slot));
    assert(pushed.drop_last() =~= slots);
    lemma_without_action_absent(slots, name@);
}

// ---------------------------------------------------------------------------
// Minted hotkey ids
// ---------------------------------------------------------------------------

/// The id bookkeeping, as values: which action each id was minted for, the
/// next id to mint, and the ids unregistered so far.
pub struct HotkeyIdsModel {
    pub entries: Seq<(Seq<char>, u64)>,
    pub next_id: u64,
    pub suppressed: Seq<u64>,
}

/// The id recorded for `name`, searching from position `i`.
pub open spec fn id_of_from(entries: Seq<(Seq<char>, u64)>, name: Seq<char>, i: int) -> Option<u64>
    decreases entries.len() - i,
{
    if i < 0 || i >= entries.len() {
        None
    } else if entries[i].0 == name {
        Some(entries[i].1)
    } else {
        id_of_from(entries, name, i + 1)
    }
}

/// The id recorded for the action `name`, if any.
pub open spec fn id_of(entries: Seq<(Seq<char>, u64)>, name: Seq<char>) -> Option<u64> {
    id_of_from(entries, name, 0)
}

/// The position of the first entry for `name`, searching from position `i`.
pub open spec fn position_of_from(entries: Seq<(Seq<char>, u64)>, name: Seq<char>, i: int) -> Option<int>
    decreases entries.len() - i,
{
    if i < 0 || i >= entries.len() {
        None
    } else if entries[i].0 == name {
        Some(i)
    } else {
        position_of_from(entries, name, i + 1)
    }
}

/// The action the first entry carrying `id` was minted for, searching from
/// position `i`.
pub open spec fn name_of_from(entries: Seq<(Seq<char>, u64)>, id: u64, i: int) -> Option<Seq<char>>
    decreases entries.len() - i,
{
    if i < 0 || i >= entries.len() {
        None
    } else if entries[i].1 == id {
        Some(entries[i].0)
    } else {
        name_of_from(entries, id, i + 1)
    }
}

/// The action an id was minted for, if any.
pub open spec fn name_of(entries: Seq<(Seq<char>, u64)>, id: u64) -> Option<Seq<char>> {
    name_of_from(entries, id, 0)
}

/// Records `id` for `name`: replaces the id of an existing entry for `name`,
/// or appends a new entry.
pub open spec fn assign(entries: Seq<(Seq<char>, u64)>, name: Seq<char>, id: u64) -> Seq<(Seq<char>, u64)> {
    match position_of_from(entries, name, 0) {
        Some(i) => entries.update(i, (name, id)),
        None => entries.push((name, id)),
    }
}

/// Drops the entry for `name`, if there is one.
pub open spec fn unassign(entries: Seq<(Seq<char>, u64)>, name: Seq<char>) -> Seq<(Seq<char>, u64)> {
    match position_of_from(entries, name, 0) {
        Some(i) => entries.remove(i),
        None => entries,
    }
}

/// No two entries are for the same action.
pub open spec fn names_distinct(entries: Seq<(Seq<char>, u64)>) -> bool {
    forall|i: int, j: int| 0 <= i < j < entries.len() ==> #[trigger] entries[i].0 != #[trigger] entries[j].0
}

/// Minting an id for `name`: the next id goes to `name`, and the counter
/// moves on (wrapping, as an atomic fetch-and-add does).
pub open spec fn after_mint(m: HotkeyIdsModel, name: Seq<char>) -> HotkeyIdsModel {
    HotkeyIdsModel {
        entries: assign(m.entries, name, m.next_id),
        next_id: if m.next_id == u64::MAX { 0 } else { (m.next_id + 1) as u64 },
        suppressed: m.suppressed,
    }
}

/// Unregistering `id`: it is suppressed for good, and the entry for the
/// action it was minted for, if any, is dropped.
pub open spec fn after_unregister(m: HotkeyIdsModel, id: u64) -> HotkeyIdsModel {
    HotkeyIdsModel {
        entries: match name_of(m.entries, id) {
            Some(n) => unassign(m.entries, n),
            None => m.entries,
        },
        next_id: m.next_id,
        suppressed: if m.suppressed.contains(id) { m.suppressed } else { m.suppressed.push(id) },
    }
}

/// The hotkey a portal signal for the shortcut `shortcut_id` is forwarded
/// as: the id minted for that action, unless it was unregistered.
pub open spec fn forward_target(m: HotkeyIdsModel, shortcut_id: Seq<char>) -> Option<u64> {
    match id_of(m.entries, shortcut_id) {
        Some(id) => if m.suppressed.contains(id) { None } else { Some(id) },
        None => None,
    }
}

/// The id bookkeeping of the portal backend.
pub struct HotkeyIds {
    entries: Vec<(String, HotkeyId)>,
    next_id: u64,
    suppressed: Vec<HotkeyId>,
}

/// A list of `(action, id)` entries, as values.
pub open spec fn entries_view(v: Seq<(String, HotkeyId)>) -> Seq<(Seq<char>, u64)> {
    v.map_values(|e: (String, HotkeyId)| (e.0@, e.1.0))
}

/// A list of ids, as values.
pub open spec fn ids_view(v: Seq<HotkeyId>) -> Seq<u64> {
    v.map_values(|h: HotkeyId| h.0)
}

/// The action the first entry carrying `id` was minted for.
pub fn find_action_by_id(ids: &Vec<(String, HotkeyId)>, id: &HotkeyId) -> (r: Option<String>)
    ensures
        match name_of(entries_view(ids@), id.0) {
            Some(n) => r matches Some(x) && x@ == n,
            None => r is None,
        },
{
    let ghost es = entries_view(ids@);
    let mut i: usize = 0;
    while i < ids.len()
        invariant
            es == entries_view(ids@),
            i <= ids@.len(),
            name_of(es, id.0) == name_of_from(es, id.0, i as int),
        decreases ids@.len() - i,
    {
        if ids[i].1.0 == id.0 {
            return Some(ids[i].0.clone());
        }
        i = i + 1;
    }
    None
}

fn position_of(ids: &Vec<(String, HotkeyId)>, name: &str) -> (r: Option<usize>)
    ensures
        r matches Some(p) ==> position_of_from(entries_view(ids@), name@, 0) == Some(p as int),
        r is None ==> position_of_from(entries_view(ids@), name@, 0) is None,
{
    let ghost es = entries_view(ids@);
    let mut i: usize = 0;
    while i < ids.len()
        invariant
            es == entries_view(ids@),
            i <= ids@.len(),
            position_of_from(es, name@, 0) == position_of_from(es, name@, i as int),
        decreases ids@.len() - i,
    {
        if crate::text::str_eq(ids[i].0.as_str(), name) {
            return Some(i);
        }
        i = i + 1;
    }
    None
}

proof fn lemma_position_in_range(es: Seq<(Seq<char>, u64)>, name: Seq<char>, i: int)
    requires
        0 <= i,
    ensures
        position_of_from(es, name, i) matches Some(p) ==> (i <= p < es.len() && es[p].0 == name),
        position_of_from(es, name, i) is None ==> forall|j: int| i <= j < es.len() ==> #[trigger] es[j].0 != name,
    decreases es.len() - i,
{
    if 0 <= i < es.len() && es[i].0 != name {
        lemma_position_in_range(es, name, i + 1);
    }
}

proof fn lemma_id_of_distinct(es: Seq<(Seq<char>, u64)>, name: Seq<char>, i: int, k: int)
    requires
        names_distinct(es),
        0 <= i <= k < es.len(),
        es[k].0 == name,
    ensures
        id_of_from(es, name, i) == Some(es[k].1),
    decreases k - i,
{
    if i < k {
        assert(es[i].0 != es[k].0);
        lemma_id_of_distinct(es, name, i + 1, k);
    }
}

impl HotkeyIds {
    /// The bookkeeping as values.
    pub closed spec fn model(&self) -> HotkeyIdsModel {
        HotkeyIdsModel {
            entries: entries_view(self.entries@),
            next_id: self.next_id,
            suppressed: ids_view(self.suppressed@),
        }
    }

    /// Every action has at most one entry.
    #[verifier::type_invariant]
    closed spec fn wf(&self) -> bool {
        names_distinct(entries_view(self.entries@))
    }

    /// No ids yet; the first one minted is 1.
    pub fn new() -> (r: Self)
        ensures
            r.model().entries == Seq::<(Seq<char>, u64)>::empty(),
            r.model().next_id == 1,
            r.model().suppressed == Seq::<u64>::empty(),
    {
        let r = HotkeyIds { entries: Vec::new(), next_id: 1, suppressed: Vec::new() };
        assert(entries_view(r.entries@) =~= Seq::<(Seq<char>, u64)>::empty());
        assert(ids_view(r.suppressed@) =~= Seq::<u64>::empty());
        r
    }

    /// Mints the next id for the action `action_name`.
    pub fn mint(&mut self, action_name: &str) -> (r: HotkeyId)
        ensures
            names_distinct(old(self).model().entries),
            r.0 == old(self).model().next_id,
            final(self).model() == after_mint(old(self).model(), action_name@),
    {
        proof {
            use_type_invariant(&*self);
        }
        let id = HotkeyId(self.next_id);
        self.next_id = self.next_id.wrapping_add(1);
        let mut entries: Vec<(String, HotkeyId)> = Vec::new();
        std::mem::swap(&mut entries, &mut self.entries);
        let ghost es = entries_view(entries@);
        proof {
            lemma_position_in_range(es, action_name@, 0);
        }
        match position_of(&entries, action_name) {
            Some(p) => {
                entries.set(p, (action_name.to_owned(), id));
                assert(entries_view(entries@) =~= es.update(p as int, (action_name@, id.0)));
            },
            None => {
                entries.push((action_name.to_owned(), id));
                assert(entries_view(entries@) =~= es.push((action_name@, id.0)));
            },
        }
        self.entries = entries;
        id
    }

    /// Whether `id` has been unregistered.
    fn is_suppressed(&self, id: HotkeyId) -> (r: bool)
        ensures
            r == self.model().suppressed.contains(id.0),
    {
        let ghost sv = ids_view(self.suppressed@);
        let mut j: usize = 0;
        while j < self.suppressed.len()
            invariant
                sv == ids_view(self.suppressed@),
                j <= sv.len(),
                forall|t: int| 0 <= t < j ==> sv[t] != id.0,
            decreases sv.len() - j,
        {
            assert(sv[j as int] == self.suppressed@[j as int].0);
            if self.suppressed[j].0 == id.0 {
                return true;
            }
            j = j + 1;
        }
        false
    }

    /// Unregisters `id`: suppresses it for good and drops the entry of the
    /// action it was minted for, whose name is returned.
    pub fn unregister(&mut self, id: HotkeyId) -> (r: Option<String>)
        ensures
            names_distinct(old(self).model().entries),
            final(self).model() == after_unregister(old(self).model(), id.0),
            match name_of(old(self).model().entries, id.0) {
                Some(n) => r matches Some(x) && x@ == n,
                None => r is None,
            },
    {
        proof {
            use_type_invariant(&*self);
        }
        let already = self.is_suppressed(id);
        let mut suppressed: Vec<HotkeyId> = Vec::new();
        std::mem::swap(&mut suppressed, &mut self.suppressed);
        let ghost sv = ids_view(suppressed@);
        if !already {
            suppressed.push(id);
            assert(ids_view(suppressed@) =~= sv.push(id.0));
        }
        self.suppressed = suppressed;
        let mut entries: Vec<(String, HotkeyId)> = Vec::new();
        std::mem::swap(&mut entries, &mut self.entries);
        let found = find_action_by_id(&entries, &id);
        let ghost es = entries_view(entries@);
        match &found {
            Some(name) => {
                proof {
                    lemma_position_in_range(es, name@, 0);
                }
                let nstr = name.as_str();
                match position_of(&entries, nstr) {
                    Some(p) => {
                        let _gone = entries.remove(p);
                        assert(entries_view(entries@) =~= es.remove(p as int));
                        assert forall|i: int, j: int|
                            0 <= i < j < es.len() - 1 implies #[trigger] es.remove(p as int)[i].0
                            != #[trigger] es.remove(p as int)[j].0 by {
                            let a = if i < p { i } else { i + 1 };
                            let b = if j < p { j } else { j + 1 };
                            assert(es[a].0 != es[b].0);
                        }
                    },
                    None => {},
                }
            },
            None => {},
        }
        self.entries = entries;
        found
    }

    /// The hotkey a portal signal for `shortcut_id` is forwarded as, if any.
    pub fn forward_target(&self, shortcut_id: &str) -> (r: Option<HotkeyId>)
        ensures
            match forward_target(self.model(), shortcut_id@) {
                Some(x) => r matches Some(h) && h.0 == x,
                None => r is None,
            },
    {
        let ghost es = entries_view(self.entries@);
        let mut i: usize = 0;
        while i < self.entries.len()
            invariant
                es == entries_view(self.entries@),
                i <= es.len(),
                id_of(es, shortcut_id@) == id_of_from(es, shortcut_id@, i as int),
            decreases es.len() - i,
        {
            assert(es[i as int] == (self.entries@[i as int].0@, self.entries@[i as int].1.0));
            if crate::text::str_eq(self.entries[i].0.as_str(), shortcut_id) {
                let id = self.entries[i].1;
                if self.is_suppressed(id) {
                    return None;
                }
                return Some(id);
            }
            i = i + 1;
        }
        None
    }
}

/// Once an id is unregistered, no later portal signal is forwarded as it:
/// whatever is minted afterwards, for whichever actions, a signal for any
/// shortcut resolves to some other id or to nothing.
pub proof fn law_unregistered_id_is_never_forwarded(m: HotkeyIdsModel, id: u64, names: Seq<Seq<char>>, shortcut_id: Seq<char>)
    ensures
        forward_target(mint_all(after_unregister(m, id), names), shortcut_id) != Some(id),
    decreases names.len(),
{
    let u = after_unregister(m, id);
    if !m.suppressed.contains(id) {
        assert(m.suppressed.push(id)[m.suppressed.len() as int] == id);
    }
    assert(u.suppressed.contains(id));
    lemma_mint_all_keeps_suppressed(u, names);
}

/// Minting ids for each of `names` in turn.
pub open spec fn mint_all(m: HotkeyIdsModel, names: Seq<Seq<char>>) -> HotkeyIdsModel
    decreases names.len(),
{
    if names.len() == 0 {
        m
    } else {
        after_mint(mint_all(m, names.drop_last()), names.last())
    }
}

proof fn lemma_mint_all_keeps_suppressed(m: HotkeyIdsModel, names: Seq<Seq<char>>)
    ensures
        mint_all(m, names).suppressed == m.suppressed,
    decreases names.len(),
{
    if names.len() > 0 {
        lemma_mint_all_keeps_suppressed(m, names.drop_last());
    }
}

/// A freshly minted id is what the portal's signals for its action are
/// forwarded as, unless that id had already been unregistered.
pub proof fn law_minted_action_is_forwarded(m: HotkeyIdsModel, name: Seq<char>)
    requires
        names_distinct(m.entries),
        !m.suppressed.contains(m.next_id),
    ensures
        forward_target(after_mint(m, name), name) == Some(m.next_id),
{
    let es = m.entries;
    lemma_position_in_range(es, name, 0);
    let after = assign(es, name, m.next_id);
    match position_of_from(es, name, 0) {
        Some(p) => {
            assert forall|i: int, j: int| 0 <= i < j < after.len() implies #[trigger] after[i].0
                != #[trigger] after[j].0 by {
                assert(es[i].0 != es[j].0);
            }
            lemma_id_of_distinct(after, name, 0, p);
        },
        None => {
            let k = es.len() as int;
            assert forall|i: int, j: int| 0 <= i < j < after.len() implies #[trigger] after[i].0
                != #[trigger] after[j].0 by {
                if j < k {
                    assert(es[i].0 != es[j].0);
                } else {
                    assert(es[i].0 != name);
                }
            }
            lemma_id_of_distinct(after, name, 0, k);
        },
    }
}

} // verus!
