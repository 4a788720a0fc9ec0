//! Key handling rules of the IBus front end: which keys toggle Vietnamese
//! typing, which are navigation keys, which character a key stands for, and
//! what becomes of a key event.

use vstd::prelude::*;
use crate::buffer::CharBuffer;
use crate::abbreviation::{entries_view, expand_commit, spec_expand_commit};
use crate::engine::Action;
use crate::hotkey::{modifiers_match, spec_modifiers_match, HeldModifiers};
use crate::text::{chars_of, contains_ignore_ascii_case, seq_contains_ci, string_of};

verus! {

/// Capability bit: the client can report and delete surrounding text.
pub const IBUS_CAP_SURROUNDING_TEXT: u32 = 8u32;
/// Modifier bit: the event is a key release.
pub const IBUS_RELEASE_MASK: u32 = 0x4000_0000u32;
pub const IBUS_SHIFT_MASK: u32 = 1u32;
pub const IBUS_CONTROL_MASK: u32 = 4u32;
/// Modifier bit of Alt.
pub const IBUS_MOD1_MASK: u32 = 8u32;
pub const IBUS_SUPER_MASK: u32 = 0x0400_0000u32;

/// Keysym of Backspace.
pub const KEY_BACKSPACE: u32 = 0xFF08u32;
/// Keysym of Return.
pub const KEY_RETURN: u32 = 0xFF0Du32;
/// Keysym of Escape.
pub const KEY_ESCAPE: u32 = 0xFF1Bu32;

/// `v` is a Unicode scalar value.
pub open spec fn is_scalar(v: u32) -> bool {
    v <= 0x10FFFF && !(0xD800 <= v <= 0xDFFF)
}

/// Calls `char::from_u32`, which gives the character with code `v` when `v`
/// is a Unicode scalar value and `None` otherwise.
#[verifier::external_body]
fn char_from_u32(v: u32) -> (r: Option<char>)
    ensures
        r == (if is_scalar(v) {
            Some(v as char)
        } else {
            None
        }),
{
    char::from_u32(v)
}

/// The character a keysym stands for: printable ASCII keysyms are their own
/// code, keysyms from `0x0100_0000` on carry a Unicode code point.
pub open spec fn spec_keyval_to_char(keyval: u32) -> Option<char> {
    if 0x20 <= keyval <= 0x7E {
        Some(keyval as char)
    } else if keyval >= 0x0100_0000 && is_scalar((keyval - 0x0100_0000) as u32) {
        Some((keyval - 0x0100_0000) as char)
    } else {
        None
    }
}

pub fn keyval_to_char(keyval: u32) -> (r: Option<char>)
    ensures
        r == spec_keyval_to_char(keyval),
{
    if 0x0020 <= keyval && keyval <= 0x007E {
        return char_from_u32(keyval);
    }
    if keyval >= 0x0100_0000 {
        return char_from_u32(keyval - 0x0100_0000);
    }
    None
}

/// The modifiers whose bits are set in `state`.
pub open spec fn held_of_state(state: u32) -> HeldModifiers {
    HeldModifiers {
        control: (state & IBUS_CONTROL_MASK) != 0,
        shift: (state & IBUS_SHIFT_MASK) != 0,
        alt: (state & IBUS_MOD1_MASK) != 0,
        super_key: (state & IBUS_SUPER_MASK) != 0,
    }
}

/// The modifiers held according to the modifier bits `state`.
pub fn held_from_state(state: u32) -> (r: HeldModifiers)
    ensures
        r == held_of_state(state),
{
    HeldModifiers {
        control: (state & IBUS_CONTROL_MASK) != 0,
        shift: (state & IBUS_SHIFT_MASK) != 0,
        alt: (state & IBUS_MOD1_MASK) != 0,
        super_key: (state & IBUS_SUPER_MASK) != 0,
    }
}

/// The key matches the configured key: the configured key occurs in the
/// key's name, ASCII letters compared without case.
pub open spec fn spec_key_match(key_name: Seq<char>, config_key: Seq<char>) -> bool {
    seq_contains_ci(key_name, config_key)
}

/// Whether the key with name `key_name`, pressed with modifiers `state`, is
/// the hotkey made of `config_mod` and `config_key`. An empty configured key
/// is only matched by a key with an empty name.
pub fn is_toggle_hotkey(state: u32, key_name: &str, config_mod: &str, config_key: &str) -> (r: bool)
    requires
        config_key@.len() > 0 || key_name@.len() == 0,
    ensures
        r == (spec_modifiers_match(held_of_state(state), config_mod@) && spec_key_match(
            key_name@,
            config_key@,
        )),
{
    let mod_match = modifiers_match(held_from_state(state), config_mod);
    let key_match = contains_ignore_ascii_case(key_name, config_key);
    mod_match && key_match
}

/// Keysyms of navigation and editing keys: Backspace, Tab, Escape, the
/// cursor block from Home to End, Insert and Delete.
pub open spec fn spec_is_nav_key(keyval: u32) -> bool {
    ||| keyval == 0xFF08
    ||| keyval == 0xFF09
    ||| keyval == 0xFF1B
    ||| 0xFF50 <= keyval <= 0xFF58
    ||| keyval == 0xFF63
    ||| keyval == 0xFFFF
}

pub fn is_nav_key(keyval: u32) -> (r: bool)
    ensures
        r == spec_is_nav_key(keyval),
{
    keyval == 0xFF08 || keyval == 0xFF09 || keyval == 0xFF1B || (0xFF50 <= keyval && keyval
        <= 0xFF58) || keyval == 0xFF63 || keyval == 0xFFFF
}

/// What the front end does with a key event.
#[derive(Debug, Clone, Copy, PartialEq, Eq)]
pub enum KeyRoute {
    /// A key release: not handled.
    Release,
    /// The method cycle hotkey: switch to the next typing method and
    /// consume the key.
    CycleMethod,
    /// The on/off hotkey: commit any text being composed if Vietnamese
    /// typing is on, flip it, and consume the key.
    ToggleHotkey,
    /// Escape in vim mode: commit any text being composed and switch
    /// Vietnamese typing off if it is on; the key goes through.
    VimEscape,
    /// Vietnamese typing is off: the key goes through.
    Disabled,
    /// A Control or Alt chord, or a navigation key: commit any text being
    /// composed; the key goes through.
    FlushAndPass,
    /// A key that stands for no character: it goes through.
    NoChar,
    /// Feed this character to the engine.
    Feed(char),
}

/// The character fed to the engine for a key: Backspace and Return become
/// control characters, other keys their own character.
pub open spec fn spec_key_char(keyval: u32) -> Option<char> {
    if keyval == KEY_BACKSPACE {
        Some('\x08')
    } else if keyval == KEY_RETURN {
        Some('\n')
    } else {
        spec_keyval_to_char(keyval)
    }
}

/// The route of a key event, decided in this order: release, hotkey, vim
/// Escape, typing off, chords, navigation keys, then the key's character.
pub open spec fn spec_route_key_event(
    keyval: u32,
    state: u32,
    key_name: Seq<char>,
    config_mod: Seq<char>,
    config_key: Seq<char>,
    vim_mode: bool,
    enabled: bool,
) -> KeyRoute {
    if (state & IBUS_RELEASE_MASK) != 0 {
        KeyRoute::Release
    } else if spec_modifiers_match(held_of_state(state), config_mod) && spec_key_match(
        key_name,
        config_key,
    ) {
        KeyRoute::ToggleHotkey
    } else if keyval == KEY_ESCAPE && vim_mode {
        KeyRoute::VimEscape
    } else if !enabled {
        KeyRoute::Disabled
    } else if (state & (IBUS_CONTROL_MASK | IBUS_MOD1_MASK)) != 0 {
        KeyRoute::FlushAndPass
    } else if spec_is_nav_key(keyval) && keyval != KEY_BACKSPACE {
        KeyRoute::FlushAndPass
    } else {
        match spec_key_char(keyval) {
            Some(c) => KeyRoute::Feed(c),
            None => KeyRoute::NoChar,
        }
    }
}

/// Decides what becomes of a key event with keysym `keyval` and modifier
/// bits `state`; `key_name` is the keysym's name, `config_mod` and
/// `config_key` the on/off hotkey, `enabled` whether Vietnamese typing is on.
pub fn route_key_event(
    keyval: u32,
    state: u32,
    key_name: &str,
    config_mod: &str,
    config_key: &str,
    vim_mode: bool,
    enabled: bool,
) -> (r: KeyRoute)
    requires
        (state & IBUS_RELEASE_MASK) != 0 || config_key@.len() > 0 || key_name@.len() == 0,
    ensures
        r == spec_route_key_event(keyval, state, key_name@, config_mod@, config_key@, vim_mode, enabled),
{
    if state & IBUS_RELEASE_MASK != 0 {
        return KeyRoute::Release;
    }
    if is_toggle_hotkey(state, key_name, config_mod, config_key) {
        return KeyRoute::ToggleHotkey;
    }
    if keyval == KEY_ESCAPE && vim_mode {
        return KeyRoute::VimEscape;
    }
    if !enabled {
        return KeyRoute::Disabled;
    }
    if state & (IBUS_CONTROL_MASK | IBUS_MOD1_MASK) != 0 {
        return KeyRoute::FlushAndPass;
    }
    let is_backspace = keyval == KEY_BACKSPACE;
    if is_nav_key(keyval) && !is_backspace {
        return KeyRoute::FlushAndPass;
    }
    let ch = if is_backspace {
        Some('\x08')
    } else if keyval == KEY_RETURN {
        Some('\n')
    } else {
        keyval_to_char(keyval)
    };
    match ch {
        Some(c) => KeyRoute::Feed(c),
        None => KeyRoute::NoChar,
    }
}

/// The key with name `key_name`, pressed with modifiers `state`, is the
/// hotkey made of `config_mod` and `config_key`.
pub open spec fn spec_is_hotkey(state: u32, key_name: Seq<char>, config_mod: Seq<char>, config_key: Seq<char>) -> bool {
    spec_modifiers_match(held_of_state(state), config_mod) && spec_key_match(key_name, config_key)
}

/// The route of a key press when a method cycle hotkey is configured too:
/// after a release, the cycle hotkey (when its key is set) comes first, then
/// everything as in [`spec_route_key_event`].
pub open spec fn spec_route_key_press(
    keyval: u32,
    state: u32,
    key_name: Seq<char>,
    config_mod: Seq<char>,
    config_key: Seq<char>,
    cycle_mod: Seq<char>,
    cycle_key: Seq<char>,
    vim_mode: bool,
    enabled: bool,
) -> KeyRoute {
    if (state & IBUS_RELEASE_MASK) != 0 {
        KeyRoute::Release
    } else if cycle_key.len() > 0 && spec_is_hotkey(state, key_name, cycle_mod, cycle_key) {
        KeyRoute::CycleMethod
    } else {
        spec_route_key_event(keyval, state, key_name, config_mod, config_key, vim_mode, enabled)
    }
}

/// Decides what becomes of a key press with the on/off hotkey
/// (`config_mod`, `config_key`) and the method cycle hotkey (`cycle_mod`,
/// `cycle_key`; an empty key turns it off). An empty on/off key is only
/// matched by a key with an empty name, unless the cycle hotkey took the
/// key first.
pub fn route_key_press(
    keyval: u32,
    state: u32,
    key_name: &str,
    config_mod: &str,
    config_key: &str,
    cycle_mod: &str,
    cycle_key: &str,
    vim_mode: bool,
    enabled: bool,
) -> (r: KeyRoute)
    requires
        (state & IBUS_RELEASE_MASK) != 0 || config_key@.len() > 0 || key_name@.len() == 0 || (
        cycle_key@.len() > 0 && spec_is_hotkey(state, key_name@, cycle_mod@, cycle_key@)),
    ensures
        r == spec_route_key_press(
            keyval,
            state,
            key_name@,
            config_mod@,
            config_key@,
            cycle_mod@,
            cycle_key@,
            vim_mode,
            enabled,
        ),
{
    if state & IBUS_RELEASE_MASK != 0 {
        return KeyRoute::Release;
    }
    if !cycle_key.is_empty() && is_toggle_hotkey(state, key_name, cycle_mod, cycle_key) {
        return KeyRoute::CycleMethod;
    }
    route_key_event(keyval, state, key_name, config_mod, config_key, vim_mode, enabled)
}

/// Whether the engine's answer to a fed key consumes the key: yes for a
/// preedit or a commit, no when the key itself must still go through, and
/// for recomposing a committed word only when the client can delete
/// surrounding text.
pub open spec fn spec_consumes_key(action: Action, surrounding_text: bool) -> bool {
    match action {
        Action::Preedit(_) => true,
        Action::Commit(_) => true,
        Action::CommitAndPassThrough(_) => false,
        Action::PassThrough => false,
        Action::SurroundingRecompose { .. } => surrounding_text,
    }
}

pub fn consumes_key(action: &Action, capabilities: u32) -> (r: bool)
    ensures
        r == spec_consumes_key(*action, (capabilities & IBUS_CAP_SURROUNDING_TEXT) != 0),
{
    match action {
        Action::Preedit(_) => true,
        Action::Commit(_) => true,
        Action::CommitAndPassThrough(_) => false,
        Action::PassThrough => false,
        Action::SurroundingRecompose { .. } => (capabilities & IBUS_CAP_SURROUNDING_TEXT) != 0,
    }
}

/// The signals the IBus engine sends for the engine's answer to a fed key,
/// in this order: delete text before the cursor (`delete_count`
/// characters), commit text, update the preedit (text and whether it is
/// visible), hide the preedit; and whether the key is consumed.
#[derive(Debug, Clone, Copy, PartialEq, Eq)]
pub struct IbusPlan {
    pub delete_count: Option<usize>,
    pub commit: Option<CharBuffer>,
    pub preedit: Option<(CharBuffer, bool)>,
    pub hide_preedit: bool,
    pub consumed: bool,
}

/// A preedit is shown (visible when not empty); a commit is sent and the
/// preedit hidden; a recompose, when the client can delete surrounding
/// text, deletes the committed word and shows its new text, or hides the
/// preedit when that is empty.
pub open spec fn spec_ibus_plan(action: Action, surrounding_text: bool) -> IbusPlan {
    let consumed = spec_consumes_key(action, surrounding_text);
    match action {
        Action::Preedit(b) => IbusPlan {
            delete_count: None,
            commit: None,
            preedit: Some((b, b@.len() > 0)),
            hide_preedit: false,
            consumed,
        },
        Action::Commit(b) => IbusPlan {
            delete_count: None,
            commit: Some(b),
            preedit: None,
            hide_preedit: true,
            consumed,
        },
        Action::CommitAndPassThrough(b) => IbusPlan {
            delete_count: None,
            commit: Some(b),
            preedit: None,
            hide_preedit: true,
            consumed,
        },
        Action::PassThrough => IbusPlan {
            delete_count: None,
            commit: None,
            preedit: None,
            hide_preedit: false,
            consumed,
        },
        Action::SurroundingRecompose { preedit, delete_count, .. } => if surrounding_text {
            IbusPlan {
                delete_count: Some(delete_count),
                commit: None,
                preedit: if preedit@.len() == 0 { None } else { Some((preedit, true)) },
                hide_preedit: preedit@.len() == 0,
                consumed,
            }
        } else {
            IbusPlan { delete_count: None, commit: None, preedit: None, hide_preedit: false, consumed }
        },
    }
}

/// The signals to send for the engine's answer `action`, given the
/// client's capability bits.
pub fn ibus_plan(action: &Action, capabilities: u32) -> (r: IbusPlan)
    ensures
        r == spec_ibus_plan(*action, (capabilities & IBUS_CAP_SURROUNDING_TEXT) != 0),
{
    let consumed = consumes_key(action, capabilities);
    let surrounding = (capabilities & IBUS_CAP_SURROUNDING_TEXT) != 0;
    match action {
        Action::Preedit(b) => IbusPlan {
            delete_count: None,
            commit: None,
            preedit: Some((*b, !b.is_empty())),
            hide_preedit: false,
            consumed,
        },
        Action::Commit(b) => IbusPlan {
            delete_count: None,
            commit: Some(*b),
            preedit: None,
            hide_preedit: true,
            consumed,
        },
        Action::CommitAndPassThrough(b) => IbusPlan {
            delete_count: None,
            commit: Some(*b),
            preedit: None,
            hide_preedit: true,
            consumed,
        },
        Action::PassThrough => IbusPlan {
            delete_count: None,
            commit: None,
            preedit: None,
            hide_preedit: false,
            consumed,
        },
        Action::SurroundingRecompose { preedit, delete_count, .. } => if surrounding {
            let empty = preedit.is_empty();
            IbusPlan {
                delete_count: Some(*delete_count),
                commit: None,
                preedit: if empty { None } else { Some((*preedit, true)) },
                hide_preedit: empty,
                consumed,
            }
        } else {
            IbusPlan { delete_count: None, commit: None, preedit: None, hide_preedit: false, consumed }
        },
    }
}

/// `r` is the display number in `display` (such as `:0.0`): the text after
/// the leading colons, up to the first dot.
pub open spec fn is_display_number(display: Seq<char>, r: Seq<char>) -> bool {
    exists|a: int, b: int|
        {
            &&& 0 <= a <= b <= display.len()
            &&& forall|i: int| 0 <= i < a ==> #[trigger] display[i] == ':'
            &&& (a == display.len() || display[a] != ':')
            &&& forall|i: int| a <= i < b ==> #[trigger] display[i] != '.'
            &&& (b == display.len() || display[b] == '.')
            &&& r == display.subrange(a, b)
        }
}

/// The display number of an X display name: leading colons dropped, and
/// the screen number after a dot.
pub fn display_number(display: &str) -> (r: String)
    ensures
        is_display_number(display@, r@),
{
    let d = chars_of(display);
    let n = d.len();
    let mut a: usize = 0;
    while a < n && d[a] == ':'
        invariant
            n == d@.len(),
            a <= n,
            forall|i: int| 0 <= i < a ==> #[trigger] d@[i] == ':',
        decreases n - a,
    {
        a = a + 1;
    }
    let mut b: usize = a;
    let mut out: Vec<char> = Vec::new();
    while b < n && d[b] != '.'
        invariant
            n == d@.len(),
            a <= b <= n,
            forall|i: int| a <= i < b ==> #[trigger] d@[i] != '.',
            out@ == d@.subrange(a as int, b as int),
        decreases n - b,
    {
        out.push(d[b]);
        b = b + 1;
        assert(out@ =~= d@.subrange(a as int, b as int));
    }
    let r = string_of(&out);
    assert(is_display_number(display@, r@)) by {
        assert(r@ == d@.subrange(a as int, b as int));
    }
    r
}

/// Path of the file in which the IBus daemon writes its address, for the
/// home directory, machine id and display number given.
pub fn bus_file_path(home: &str, machine_id: &str, display_num: &str) -> (r: String)
    ensures
        r@ == home@ + "/.config/ibus/bus/"@ + machine_id@ + "-unix-"@ + display_num@ + "-0"@,
{
    let mut r = home.to_string();
    r.append("/.config/ibus/bus/");
    r.append(machine_id);
    r.append("-unix-");
    r.append(display_num);
    r.append("-0");
    r
}

/// Prefix of the line that holds the IBus address in a bus file.
pub open spec fn address_key() -> Seq<char> {
    "IBUS_ADDRESS="@
}

/// Index of the first newline of `s` at or after `i`, or the length of `s`.
pub open spec fn line_end(s: Seq<char>, i: int) -> int
    decreases s.len() - i,
{
    if i < 0 || i >= s.len() || s[i] == '\n' {
        if i < 0 {
            0
        } else if i >= s.len() {
            s.len() as int
        } else {
            i
        }
    } else {
        line_end(s, i + 1)
    }
}

/// The line of `s` that starts at `i`: up to its newline, without the
/// carriage return just before that newline.
pub open spec fn line_at(s: Seq<char>, i: int) -> Seq<char> {
    let j = line_end(s, i);
    let line = s.subrange(i, j);
    if j < s.len() && line.len() > 0 && line.last() == '\r' {
        line.drop_last()
    } else {
        line
    }
}

/// The IBus address in the bus file `s`, reading its lines from the one at
/// `i`: the rest of the first line that starts with `IBUS_ADDRESS=`, or
/// nothing.
pub open spec fn address_in(s: Seq<char>, i: int) -> Seq<char>
    decreases s.len() - i,
{
    if i < 0 || i >= s.len() {
        Seq::empty()
    } else {
        let line = line_at(s, i);
        if line.len() >= address_key().len() && line.take(address_key().len() as int)
            == address_key() {
            line.skip(address_key().len() as int)
        } else if line_end(s, i) >= s.len() {
            Seq::empty()
        } else {
            proof {
                lemma_line_end_bounds(s, i);
            }
            address_in(s, line_end(s, i) + 1)
        }
    }
}

/// The line starting at `i` ends at a newline or at the end of `s`, and
/// holds no newline.
pub proof fn lemma_line_end_bounds(s: Seq<char>, i: int)
    requires
        0 <= i <= s.len(),
    ensures
        i <= line_end(s, i) <= s.len(),
        forall|k: int| i <= k < line_end(s, i) ==> s[k] != '\n',
        line_end(s, i) < s.len() ==> s[line_end(s, i)] == '\n',
    decreases s.len() - i,
{
    if i < s.len() && s[i] != '\n' {
        lemma_line_end_bounds(s, i + 1);
    }
}

/// The IBus address written in a bus file's contents, or an empty string.
pub fn address_from_bus_file(content: &str) -> (r: String)
    ensures
        r@ == address_in(content@, 0),
{
    proof {
        reveal_strlit("IBUS_ADDRESS=");
    }
    let key = chars_of("IBUS_ADDRESS=");
    let s = chars_of(content);
    let n = s.len();
    let mut i: usize = 0;
    while i < n
        invariant
            n == s@.len(),
            s@ == content@,
            key@ == address_key(),
            i <= n,
            address_in(s@, i as int) == address_in(s@, 0),
        decreases n - i,
    {
        let mut j: usize = i;
        while j < n && s[j] != '\n'
            invariant
                n == s@.len(),
                i <= j <= n,
                i < n,
                line_end(s@, i as int) == line_end(s@, j as int),
            decreases n - j,
        {
            j = j + 1;
        }
        proof {
            lemma_line_end_bounds(s@, i as int);
        }
        let mut end = j;
        if j < n && end > i && s[end - 1] == '\r' {
            end = end - 1;
        }
        let line_len = end - i;
        let mut matches = line_len >= key.len();
        let mut k: usize = 0;
        while matches && k < key.len()
            invariant
                n == s@.len(),
                i <= end <= n,
                line_len == end - i,
                matches ==> line_len >= key@.len(),
                k <= key@.len(),
                matches ==> forall|q: int| 0 <= q < k ==> s@[i + q] == #[trigger] key@[q],
                !matches ==> !(line_len >= key@.len() && s@.subrange(i as int, end as int).take(
                    key@.len() as int,
                ) == key@),
            decreases key@.len() - k,
        {
            if s[i + k] != key[k] {
                matches = false;
                proof {
                    assert(s@.subrange(i as int, end as int).take(key@.len() as int)[k as int]
                        == s@[i + k]);
                }
                k = key.len();
            } else {
                k = k + 1;
            }
        }
        proof {
            assert(line_at(s@, i as int) =~= s@.subrange(i as int, end as int));
            if matches {
                assert(s@.subrange(i as int, end as int).take(key@.len() as int) =~= key@);
            }
        }
        if matches {
            let mut out: Vec<char> = Vec::new();
            let mut p = i + key.len();
            while p < end
                invariant
                    n == s@.len(),
                    i + key@.len() <= p <= end <= n,
                    out@ == s@.subrange(i + key@.len(), p as int),
                decreases end - p,
            {
                out.push(s[p]);
                p = p + 1;
                assert(out@ =~= s@.subrange(i + key@.len(), p as int));
            }
            proof {
                assert(out@ =~= s@.subrange(i as int, end as int).skip(key@.len() as int));
            }
            return string_of(&out);
        }
        if j >= n {
            proof {
                assert(address_in(s@, j + 1) == Seq::<char>::empty());
            }
            return String::new();
        }
        i = j + 1;
    }
    String::new()
}

/// The signals for the engine's answer `action` when abbreviations are set:
/// a word committed with Space or Enter that has an abbreviation is
/// committed as the abbreviated text (returned beside the plan, whose own
/// commit is then dropped); everything else is as in [`spec_ibus_plan`].
pub fn ibus_plan_with_abbreviations(
    action: &Action,
    capabilities: u32,
    entries: &Vec<(String, String)>,
) -> (r: (IbusPlan, Option<String>))
    ensures
        r.1 matches Some(text) ==> spec_expand_commit(entries_view(entries@), action.view()) == Some(
            text@,
        ) && r.0 == (IbusPlan {
            commit: None,
            ..spec_ibus_plan(*action, (capabilities & IBUS_CAP_SURROUNDING_TEXT) != 0)
        }),
        r.1 is None ==> spec_expand_commit(entries_view(entries@), action.view()) is None && r.0
            == spec_ibus_plan(*action, (capabilities & IBUS_CAP_SURROUNDING_TEXT) != 0),
{
    let plan = ibus_plan(action, capabilities);
    match expand_commit(entries, action) {
        Some(text) => (IbusPlan { commit: None, ..plan }, Some(text)),
        None => (plan, None),
    }
}

} // verus!
