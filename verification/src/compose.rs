//! Keystroke rules of Telex and VNI: how one key changes the composed text,
//! the raw keys kept for it, and the saved Smart W alternative.

use vstd::prelude::*;
use crate::buffer::{push16, replace_at_seq, replace_last_seq, CharBuffer};
use crate::engine::InputMethod;
use crate::letters::{
    ascii_lower, is_ascii_digit, is_cased_known, is_upper, spec_ascii_lower, spec_is_ascii_digit, spec_is_upper,
    spec_lower,
};
use crate::telex::{
    add_tone, apply_vowel_modifier, fast_lower, find_tone_target_index, get_base_vowel_and_tone,
    is_vowel, remove_vowel_modifier, spec_add_tone, spec_apply_vowel_modifier, spec_base,
    spec_base_tone, spec_is_vowel, spec_remove_vowel_modifier, spec_tone, spec_tone_of_key,
    spec_tone_target, lemma_tone_target_is_vowel, Tone,
};
use crate::validation::{is_valid_vietnamese_syllable, lemma_syllable_length, spec_is_valid_syllable};

verus! {

broadcast use CharBuffer::lemma_view;

/// What composing works on: the composed text, the raw keys it came from,
/// and the Smart W alternative (`uo` with only `o → ơ`) kept for a later tone.
pub struct Work {
    pub buf: Seq<char>,
    pub raw: Seq<char>,
    pub fb: Option<Seq<char>>,
}

/// The characters of an optional buffer.
pub open spec fn opt_view(o: Option<CharBuffer>) -> Option<Seq<char>> {
    match o {
        Some(b) => Some(b@),
        None => None,
    }
}

// ---------------------------------------------------------------------------
// Whole-buffer maps
// ---------------------------------------------------------------------------

/// Every character replaced by its base letter.
pub open spec fn strip_all(s: Seq<char>) -> Seq<char> {
    Seq::new(s.len(), |i: int| spec_base(s[i]))
}

/// Every vowel replaced by its base letter.
pub open spec fn strip_vowels(s: Seq<char>) -> Seq<char> {
    Seq::new(s.len(), |i: int| if spec_is_vowel(s[i]) { spec_base(s[i]) } else { s[i] })
}

/// Every vowel but the one at `keep` replaced by its base letter.
pub open spec fn strip_vowels_except(s: Seq<char>, keep: int) -> Seq<char> {
    Seq::new(
        s.len(),
        |i: int|
            if i != keep && spec_is_vowel(s[i]) {
                spec_base(s[i])
            } else {
                s[i]
            },
    )
}

/// Every character carrying tone `t` replaced by its base letter.
pub open spec fn strip_tone(s: Seq<char>, t: Tone) -> Seq<char> {
    Seq::new(s.len(), |i: int| if spec_tone(s[i]) == t { spec_base(s[i]) } else { s[i] })
}

/// Every toned character replaced by its base letter.
pub open spec fn strip_any_tone(s: Seq<char>) -> Seq<char> {
    Seq::new(
        s.len(),
        |i: int|
            if spec_tone(s[i]) != Tone::Level {
                spec_base(s[i])
            } else {
                s[i]
            },
    )
}

/// Some character of `s` carries tone `t`.
pub open spec fn has_tone(s: Seq<char>, t: Tone) -> bool {
    exists|i: int| 0 <= i < s.len() && spec_tone(#[trigger] s[i]) == t
}

/// Some character of `s` carries a tone.
pub open spec fn has_any_tone(s: Seq<char>) -> bool {
    exists|i: int| 0 <= i < s.len() && spec_tone(#[trigger] s[i]) != Tone::Level
}

/// The first tone found in `s` from `i` on.
pub open spec fn first_tone_from(s: Seq<char>, i: int) -> Tone
    decreases s.len() - i,
{
    if i < 0 || i >= s.len() {
        Tone::Level
    } else if spec_tone(s[i]) != Tone::Level {
        spec_tone(s[i])
    } else {
        first_tone_from(s, i + 1)
    }
}

/// Moves the syllable's tone onto the vowel the placement rules choose:
/// strips every mark and puts the first tone found on the target vowel.
pub open spec fn spec_shift_tone(b: Seq<char>) -> Seq<char> {
    let t = first_tone_from(b, 0);
    if t == Tone::Level {
        b
    } else {
        let stripped = strip_all(b);
        match spec_tone_target(stripped) {
            Some(i) => replace_at_seq(stripped, i as int, spec_add_tone(stripped[i as int], t)),
            None => b,
        }
    }
}

/// Strips the vowels of `b` and puts tone `t` on the target vowel; reports
/// whether there was a target.
pub open spec fn spec_apply_tone_to_buffer(b: Seq<char>, t: Tone) -> (Seq<char>, bool) {
    let s = strip_vowels(b);
    match spec_tone_target(s) {
        Some(i) => (replace_at_seq(s, i as int, spec_add_tone(spec_base(s[i as int]), t)), true),
        None => (s, false),
    }
}

/// Uses up the saved Smart W alternative: with tone `t` put on it, it is the
/// result if it is a valid syllable. Returns the new saved alternative
/// (always none) and the result.
pub open spec fn spec_smart_w_fallback(fb: Option<Seq<char>>, t: Tone) -> (
    Option<Seq<char>>,
    Option<Seq<char>>,
) {
    match fb {
        None => (None, None),
        Some(f) => {
            let g = spec_apply_tone_to_buffer(f, t).0;
            if spec_is_valid_syllable(g) {
                (None, Some(g))
            } else {
                (None, None)
            }
        },
    }
}

// ---------------------------------------------------------------------------
// Taking a key back out of the raw keys
// ---------------------------------------------------------------------------

/// Raw key `k` selects tone `t` in Telex.
pub open spec fn is_tone_key_for(k: char, t: Tone) -> bool {
    spec_tone_of_key(spec_lower(k)) == Some(t)
}

/// Last index at or before `j` of a Telex key for tone `t`; -1 if none.
pub open spec fn last_tone_key(s: Seq<char>, j: int, t: Tone) -> int
    decreases j + 1,
{
    if j < 0 || j >= s.len() {
        -1
    } else if is_tone_key_for(s[j], t) {
        j
    } else {
        last_tone_key(s, j - 1, t)
    }
}

/// Last index at or before `j` holding `d`; -1 if none.
pub open spec fn last_char_equal(s: Seq<char>, j: int, d: char) -> int
    decreases j + 1,
{
    if j < 0 || j >= s.len() {
        -1
    } else if s[j] == d {
        j
    } else {
        last_char_equal(s, j - 1, d)
    }
}

/// Last index at or before `j` whose lowercase is `l`; -1 if none.
pub open spec fn last_lower_equal(s: Seq<char>, j: int, l: char) -> int
    decreases j + 1,
{
    if j < 0 || j >= s.len() {
        -1
    } else if spec_lower(s[j]) == l {
        j
    } else {
        last_lower_equal(s, j - 1, l)
    }
}

/// `s` without the character at `j`, if `j` is inside it.
pub open spec fn remove_at(s: Seq<char>, j: int) -> Seq<char> {
    if 0 <= j < s.len() {
        s.remove(j)
    } else {
        s
    }
}

/// Raw keys with the last earlier key for tone `t` taken out (the key just
/// typed, at the end, is kept).
pub open spec fn cancel_raw_tone(raw: Seq<char>, t: Tone) -> Seq<char> {
    remove_at(raw, last_tone_key(raw, raw.len() - 2, t))
}

/// Raw keys with the last earlier digit `d` taken out.
pub open spec fn cancel_raw_digit(raw: Seq<char>, d: char) -> Seq<char> {
    remove_at(raw, last_char_equal(raw, raw.len() - 2, d))
}

/// Raw keys with the last earlier key whose lowercase is `l` taken out.
pub open spec fn cancel_raw_modifier(raw: Seq<char>, l: char) -> Seq<char> {
    remove_at(raw, last_lower_equal(raw, raw.len() - 2, l))
}

// ---------------------------------------------------------------------------
// Telex
// ---------------------------------------------------------------------------

/// Character `i` of `b`, with a plain `o` right after `ư` given the horn
/// too (tone and case kept): Vietnamese writes `ươ`, never `ưo`.
pub open spec fn complete_horn_char(b: Seq<char>, i: int) -> char {
    if 1 <= i < b.len() && spec_lower(spec_base(b[i - 1])) == 'ư' && spec_lower(spec_base(b[i]))
        == 'o' {
        horn_o(b[i], spec_tone(b[i]))
    } else {
        b[i]
    }
}

/// `b` with every `ưo` completed to `ươ`.
pub open spec fn spec_complete_horn(b: Seq<char>) -> Seq<char> {
    Seq::new(b.len(), |i: int| complete_horn_char(b, i))
}

/// Tone key `c` (tone `t`) in Telex, on the text with `ưo` completed to
/// `ươ`: a second press of the same tone takes it off and types the key;
/// otherwise the tone goes on the target vowel if that gives a valid
/// syllable (or, failing that, on the Smart W alternative). Returns the new
/// state and whether the key was used; an unused key leaves the text as it
/// was.
pub open spec fn spec_try_tone_telex(w: Work, c: char, t: Tone) -> (Work, bool) {
    let b = spec_complete_horn(w.buf);
    match spec_tone_target(b) {
        None => (w, false),
        Some(ti) => {
            let (base, cur) = spec_base_tone(b[ti as int]);
            if cur == t || has_tone(b, t) {
                (
                    Work { buf: push16(strip_tone(b, t), c), raw: cancel_raw_tone(w.raw, t), fb: w.fb },
                    true,
                )
            } else {
                let nb = replace_at_seq(
                    strip_vowels_except(b, ti as int),
                    ti as int,
                    spec_add_tone(base, t),
                );
                if spec_is_valid_syllable(nb) {
                    (Work { buf: nb, raw: w.raw, fb: w.fb }, true)
                } else {
                    let (fb2, res) = spec_smart_w_fallback(w.fb, t);
                    match res {
                        Some(f) => (Work { buf: f, raw: w.raw, fb: fb2 }, true),
                        None => (Work { buf: w.buf, raw: w.raw, fb: fb2 }, false),
                    }
                }
            }
        },
    }
}

/// `ư`/`Ư` with tone `t`, in the case of `like`.
pub open spec fn horn_u(like: char, t: Tone) -> char {
    spec_add_tone(if spec_is_upper(like) { 'Ư' } else { 'ư' }, t)
}

/// `ơ`/`Ơ` with tone `t`, in the case of `like`.
pub open spec fn horn_o(like: char, t: Tone) -> char {
    spec_add_tone(if spec_is_upper(like) { 'Ơ' } else { 'ơ' }, t)
}

/// Smart W applies: `w` typed after `u` + `o`/`a`/`u` (ignoring marks), not
/// after `qu`.
pub open spec fn smart_w_applies(b: Seq<char>, l: char) -> bool {
    let n = b.len();
    &&& l == 'w'
    &&& n >= 2
    &&& spec_lower(spec_base(b[n - 2])) == 'u'
    &&& {
        let ll = spec_lower(spec_base(b[n - 1]));
        ll == 'o' || ll == 'a' || ll == 'u'
    }
    &&& !(n >= 3 && spec_lower(b[n - 3]) == 'q')
}

/// Smart W: `uo → ươ` (saving `uơ` as the alternative), `ua → ưa`,
/// `uu → ưu`.
pub open spec fn spec_smart_w(w: Work) -> Work {
    let b = w.buf;
    let n = b.len();
    let sl = b[n - 2];
    let last = b[n - 1];
    let nu = horn_u(sl, spec_tone(sl));
    if spec_lower(spec_base(last)) == 'o' {
        let no = horn_o(last, spec_tone(last));
        Work {
            buf: replace_last_seq(replace_at_seq(b, n - 2, nu), no),
            raw: w.raw,
            fb: Some(replace_last_seq(b, no)),
        }
    } else {
        Work { buf: replace_at_seq(b, n - 2, nu), raw: w.raw, fb: w.fb }
    }
}

/// The first rule that a vowel modifier or `d` key `c` (lowercase `l`) fires
/// on the last character `last`: returns the new state, whether a rule
/// fired, and whether it was a cancellation (a second press).
pub open spec fn spec_modifier_rule(w: Work, c: char, l: char, last: char) -> (Work, bool, bool) {
    let b = w.buf;
    if smart_w_applies(b, l) {
        (spec_smart_w(w), true, false)
    } else if spec_remove_vowel_modifier(last, l) is Some {
        (
            Work {
                buf: push16(replace_last_seq(b, spec_remove_vowel_modifier(last, l)->0), c),
                raw: cancel_raw_modifier(w.raw, l),
                fb: w.fb,
            },
            true,
            true,
        )
    } else if spec_lower(last) == 'đ' && l == 'd' {
        (
            Work {
                buf: push16(replace_last_seq(b, if spec_is_upper(last) { 'D' } else { 'd' }), 'd'),
                raw: w.raw,
                fb: w.fb,
            },
            true,
            true,
        )
    } else if spec_apply_vowel_modifier(last, l) is Some {
        (
            Work {
                buf: replace_last_seq(b, spec_apply_vowel_modifier(last, l)->0),
                raw: w.raw,
                fb: w.fb,
            },
            true,
            false,
        )
    } else if spec_lower(last) == 'd' && l == 'd' {
        (
            Work {
                buf: replace_last_seq(b, if spec_is_upper(last) { 'Đ' } else { 'đ' }),
                raw: w.raw,
                fb: w.fb,
            },
            true,
            false,
        )
    } else if l == 'w' {
        (
            Work {
                buf: push16(b, if spec_is_upper(c) { 'Ư' } else { 'ư' }),
                raw: w.raw,
                fb: w.fb,
            },
            true,
            false,
        )
    } else {
        (w, false, false)
    }
}

/// Vowel modifier or `d` key in Telex: a cancellation is kept as is; any
/// other change is kept (with the tone moved to its place) only if it gives
/// a valid syllable, else the text goes back to what it was.
pub open spec fn spec_try_modifier_telex(w: Work, c: char, l: char, last: char) -> (Work, bool) {
    let (w1, applied, cancelled) = spec_modifier_rule(w, c, l, last);
    if !applied {
        (w, false)
    } else if cancelled {
        (w1, true)
    } else {
        let s = spec_shift_tone(w1.buf);
        if spec_is_valid_syllable(s) {
            (Work { buf: s, raw: w1.raw, fb: w1.fb }, true)
        } else {
            (Work { buf: w.buf, raw: w1.raw, fb: w1.fb }, false)
        }
    }
}

/// One key `c` in Telex.
pub open spec fn spec_apply_telex(w: Work, c: char) -> Work {
    let l = spec_lower(c);
    let b = w.buf;
    if l == 'z' {
        if has_any_tone(b) {
            Work { buf: strip_any_tone(b), raw: w.raw, fb: w.fb }
        } else {
            Work { buf: push16(b, c), raw: w.raw, fb: w.fb }
        }
    } else {
        let (w1, done1) = match spec_tone_of_key(l) {
            Some(t) => spec_try_tone_telex(w, c, t),
            None => (w, false),
        };
        if done1 {
            w1
        } else {
            let (w2, done2) = if w1.buf.len() > 0 {
                spec_try_modifier_telex(w1, c, l, w1.buf.last())
            } else {
                (w1, false)
            };
            if done2 {
                w2
            } else {
                Work { buf: push16(w2.buf, c), raw: w2.raw, fb: None }
            }
        }
    }
}

// ---------------------------------------------------------------------------
// VNI
// ---------------------------------------------------------------------------

/// The tone of VNI digit `d` (`1`–`5`).
pub open spec fn spec_vni_tone(d: char) -> Tone {
    match d {
        '1' => Tone::Acute,
        '2' => Tone::Grave,
        '3' => Tone::Hook,
        '4' => Tone::Tilde,
        '5' => Tone::Underdot,
        _ => Tone::Level,
    }
}

/// A base letter without its modifier (`ă â → a`, `ê → e`, `ô ơ → o`,
/// `ư → u`, `đ → d`, in either case).
pub open spec fn unmodified(base: char) -> char {
    match base {
        'ă' | 'â' => 'a',
        'Ă' | 'Â' => 'A',
        'ê' => 'e',
        'Ê' => 'E',
        'ô' | 'ơ' => 'o',
        'Ô' | 'Ơ' => 'O',
        'ư' => 'u',
        'Ư' => 'U',
        'đ' => 'd',
        'Đ' => 'D',
        _ => base,
    }
}

/// VNI `0`: every character reduced to its plain letter.
pub open spec fn vni_zero_map(b: Seq<char>) -> Seq<char> {
    Seq::new(b.len(), |i: int| unmodified(spec_base(b[i])))
}

/// VNI `0` changes something.
pub open spec fn vni_zero_changes(b: Seq<char>) -> bool {
    exists|i: int|
        0 <= i < b.len() && (unmodified(spec_base(#[trigger] b[i])) != b[i] || spec_tone(b[i])
            != Tone::Level)
}

/// Tone digit `d` in VNI (typed as key `key`): a second press of the same
/// tone takes it off (and the earlier key out of the raw keys) and reports
/// "not applied"; otherwise puts the tone on the target vowel.
pub open spec fn spec_try_tone_vni(w: Work, d: char, key: char) -> (Work, bool) {
    let t = spec_vni_tone(d);
    let b = w.buf;
    match spec_tone_target(b) {
        None => (w, false),
        Some(ti) => {
            let (base, cur) = spec_base_tone(b[ti as int]);
            if cur == t || has_tone(b, t) {
                (Work { buf: strip_tone(b, t), raw: cancel_raw_digit(w.raw, key), fb: w.fb }, false)
            } else {
                (
                    Work {
                        buf: replace_at_seq(
                            strip_vowels_except(b, ti as int),
                            ti as int,
                            spec_add_tone(base, t),
                        ),
                        raw: w.raw,
                        fb: w.fb,
                    },
                    true,
                )
            }
        },
    }
}

/// The base that VNI modifier digit `d` (`6` circumflex, `7` horn, `8`
/// breve, `9` stroke) makes of `base`, or `base` itself.
pub open spec fn vni_modified_base(d: char, base: char) -> char {
    let l = spec_lower(base);
    let up = spec_is_upper(base);
    if d == '6' {
        if l == 'a' {
            if up { 'Â' } else { 'â' }
        } else if l == 'e' {
            if up { 'Ê' } else { 'ê' }
        } else if l == 'o' {
            if up { 'Ô' } else { 'ô' }
        } else {
            base
        }
    } else if d == '7' {
        if l == 'o' {
            if up { 'Ơ' } else { 'ơ' }
        } else if l == 'u' {
            if up { 'Ư' } else { 'ư' }
        } else {
            base
        }
    } else {
        base
    }
}

/// One character under VNI modifier digit `d`; the stroke gives `Đ` for an
/// uppercase `D` only when `keep_case` (VIQR) is set.
pub open spec fn vni_modify_char(d: char, keep_case: bool, ch: char) -> char {
    let (base, tone) = spec_base_tone(ch);
    if d == '8' {
        if spec_lower(base) == 'a' {
            spec_add_tone('ă', tone)
        } else {
            ch
        }
    } else if d == '9' {
        if spec_lower(base) == 'd' && tone == Tone::Level {
            if keep_case && spec_is_upper(base) { 'Đ' } else { 'đ' }
        } else {
            ch
        }
    } else {
        let nb = vni_modified_base(d, base);
        if nb != base {
            spec_add_tone(nb, tone)
        } else {
            ch
        }
    }
}

/// VNI modifier digit `d` changes character `ch`.
pub open spec fn vni_modifies(d: char, ch: char) -> bool {
    let (base, tone) = spec_base_tone(ch);
    if d == '8' {
        spec_lower(base) == 'a'
    } else if d == '9' {
        spec_lower(base) == 'd' && tone == Tone::Level
    } else {
        vni_modified_base(d, base) != base
    }
}

/// Modifier digit `d` applied to every character.
pub open spec fn vni_modify_map(d: char, keep_case: bool, b: Seq<char>) -> Seq<char> {
    Seq::new(b.len(), |i: int| vni_modify_char(d, keep_case, b[i]))
}

/// Modifier digit `d` changes some character.
pub open spec fn vni_modify_applies(d: char, b: Seq<char>) -> bool {
    exists|i: int| 0 <= i < b.len() && vni_modifies(d, #[trigger] b[i])
}

/// The Smart W alternative saved by VNI `7` after `u` + `o`.
pub open spec fn vni_horn_fallback(b: Seq<char>, fb: Option<Seq<char>>) -> Option<Seq<char>> {
    let n = b.len();
    if n >= 2 && spec_lower(spec_base(b[n - 2])) == 'u' && spec_lower(spec_base(b[n - 1])) == 'o' {
        Some(replace_last_seq(b, horn_o(b[n - 1], spec_tone(b[n - 1]))))
    } else {
        fb
    }
}

/// The effect of VNI digit `d` (`1`–`9`), typed as key `key`, before the
/// syllable check.
pub open spec fn spec_vni_digit_rule(w: Work, d: char, key: char, keep_case: bool) -> (Work, bool) {
    let b = w.buf;
    if '1' <= d <= '5' {
        spec_try_tone_vni(w, d, key)
    } else if d == '6' || d == '8' || d == '9' {
        (
            Work { buf: vni_modify_map(d, keep_case, b), raw: w.raw, fb: w.fb },
            vni_modify_applies(d, b),
        )
    } else if d == '7' {
        (
            Work {
                buf: vni_modify_map(d, keep_case, b),
                raw: w.raw,
                fb: vni_horn_fallback(b, w.fb),
            },
            vni_modify_applies(d, b),
        )
    } else {
        (w, false)
    }
}

/// Mark `d` (a VNI digit `1`–`9`) typed as key `key`. A result that is no
/// syllable is undone (after trying the Smart W alternative for a tone) and
/// the key is typed as it is. With the spell check off, a result is refused
/// only where it is no syllable even with its tones taken off.
pub open spec fn spec_mark_rule(w: Work, d: char, key: char, keep_case: bool, spell: bool) -> Work {
    let b = w.buf;
    let (w1, applied) = spec_vni_digit_rule(w, d, key, keep_case);
    if applied {
        if spec_is_valid_syllable(w1.buf) || (!spell && spec_is_valid_syllable(
            strip_any_tone(w1.buf),
        )) {
            w1
        } else if '1' <= d <= '5' {
            let (fb2, res) = spec_smart_w_fallback(w1.fb, spec_vni_tone(d));
            match res {
                Some(f) => Work { buf: f, raw: w1.raw, fb: fb2 },
                None => Work { buf: push16(b, key), raw: w1.raw, fb: None },
            }
        } else {
            Work { buf: push16(b, key), raw: w1.raw, fb: None }
        }
    } else {
        Work { buf: push16(w1.buf, key), raw: w1.raw, fb: None }
    }
}

/// One key `c` in VNI.
pub open spec fn spec_apply_vni(w: Work, c: char, spell: bool) -> Work {
    let b = w.buf;
    if !spec_is_ascii_digit(c) {
        Work { buf: push16(b, c), raw: w.raw, fb: w.fb }
    } else if c == '0' {
        if vni_zero_changes(b) {
            Work { buf: vni_zero_map(b), raw: w.raw, fb: w.fb }
        } else {
            Work { buf: push16(b, c), raw: w.raw, fb: w.fb }
        }
    } else {
        spec_mark_rule(w, c, c, false, spell)
    }
}

// ---------------------------------------------------------------------------
// VIQR
// ---------------------------------------------------------------------------

/// The VNI digit of VIQR mark `c`: `'` `` ` `` `?` `~` `.` are the tones,
/// `^` circumflex, `+` horn, `(` breve and `-` the stroke of `đ`.
pub open spec fn viqr_mark_digit(c: char) -> Option<char> {
    match c {
        '\'' => Some('1'),
        '`' => Some('2'),
        '?' => Some('3'),
        '~' => Some('4'),
        '.' => Some('5'),
        '^' => Some('6'),
        '+' => Some('7'),
        '(' => Some('8'),
        '-' => Some('9'),
        _ => None,
    }
}

/// Character `ch` already carries the modifier of VNI digit `d` (`6`
/// circumflex, `7` horn, `8` breve, `9` stroke).
pub open spec fn carries_modifier(d: char, ch: char) -> bool {
    let l = spec_lower(spec_base(ch));
    if d == '6' {
        l == 'â' || l == 'ê' || l == 'ô'
    } else if d == '7' {
        l == 'ơ' || l == 'ư'
    } else if d == '8' {
        l == 'ă'
    } else if d == '9' {
        l == 'đ'
    } else {
        false
    }
}

/// `ch` with the modifier of digit `d` taken off (tone and case kept).
pub open spec fn drop_modifier_char(d: char, ch: char) -> char {
    if carries_modifier(d, ch) {
        spec_add_tone(unmodified(spec_base(ch)), spec_tone(ch))
    } else {
        ch
    }
}

/// The modifier of digit `d` taken off every character.
pub open spec fn drop_modifier_map(d: char, b: Seq<char>) -> Seq<char> {
    Seq::new(b.len(), |i: int| drop_modifier_char(d, b[i]))
}

/// Some character of `b` carries the modifier of digit `d`.
pub open spec fn has_modifier(d: char, b: Seq<char>) -> bool {
    exists|i: int| 0 <= i < b.len() && carries_modifier(d, #[trigger] b[i])
}

/// VIQR modifier mark `c` (digit `d`) pressed again: nothing takes the
/// modifier anew but some letter carries it.
pub open spec fn viqr_cancels(d: char, b: Seq<char>) -> bool {
    '6' <= d <= '9' && !vni_modify_applies(d, b) && has_modifier(d, b)
}

/// One key `c` in VIQR: a mark works as its VNI digit (the stroke keeps the
/// case of `D`), except that a modifier mark pressed again takes its
/// modifier off, takes the earlier mark out of the raw keys and is typed as
/// it is; any other key is typed as it is.
pub open spec fn spec_apply_viqr(w: Work, c: char, spell: bool) -> Work {
    match viqr_mark_digit(c) {
        Some(d) => if viqr_cancels(d, w.buf) {
            Work {
                buf: push16(drop_modifier_map(d, w.buf), c),
                raw: cancel_raw_digit(w.raw, c),
                fb: None,
            }
        } else {
            spec_mark_rule(w, d, c, true, spell)
        },
        None => Work { buf: push16(w.buf, c), raw: w.raw, fb: w.fb },
    }
}

// ---------------------------------------------------------------------------
// Keys and rebuilding
// ---------------------------------------------------------------------------

/// `c` is a Telex key (tone, `z`, vowel modifier or `d`), either case.
pub open spec fn is_telex_key(c: char) -> bool {
    matches!(spec_ascii_lower(c), 's' | 'f' | 'r' | 'x' | 'j' | 'a' | 'e' | 'o' | 'w' | 'd' | 'z')
}

/// One key in the given method; the other methods' keys are typed as they
/// are (digits in Telex, Telex keys in VNI).
#[verifier::opaque]
pub open spec fn spec_keystroke(m: InputMethod, spell: bool, w: Work, c: char) -> Work {
    if (m == InputMethod::Telex && spec_is_ascii_digit(c)) || (m == InputMethod::Vni
        && is_telex_key(c)) {
        Work { buf: push16(w.buf, c), raw: w.raw, fb: w.fb }
    } else if m == InputMethod::Telex {
        spec_apply_telex(w, c)
    } else if m == InputMethod::Vni {
        spec_apply_vni(w, c, spell)
    } else {
        spec_apply_viqr(w, c, spell)
    }
}

/// One step of rebuilding: record raw key `c`, apply it, move the tone.
pub open spec fn spec_rebuild_step(m: InputMethod, spell: bool, w: Work, c: char) -> Work {
    let w1 = spec_keystroke(m, spell, Work { buf: w.buf, raw: push16(w.raw, c), fb: w.fb }, c);
    Work { buf: spec_shift_tone(w1.buf), raw: w1.raw, fb: w1.fb }
}

/// Replays `keys[k..]` onto `w`; with the spell check on, stops at the first
/// key after which the text is no syllable and reports that.
pub open spec fn spec_replay(m: InputMethod, spell: bool, keys: Seq<char>, k: int, w: Work) -> (
    Work,
    bool,
)
    decreases keys.len() - k,
{
    if k < 0 || k >= keys.len() {
        (w, false)
    } else {
        let w1 = spec_rebuild_step(m, spell, w, keys[k]);
        if spell && !spec_is_valid_syllable(w1.buf) {
            (w1, true)
        } else {
            spec_replay(m, spell, keys, k + 1, w1)
        }
    }
}

/// Recomposes the text from the raw keys. With the spell check on, input
/// that stops being a syllable is shown exactly as typed.
pub open spec fn spec_rebuild(m: InputMethod, spell: bool, w: Work) -> Work {
    let (w1, failed) = spec_replay(
        m,
        spell,
        w.raw,
        0,
        Work { buf: Seq::empty(), raw: Seq::empty(), fb: w.fb },
    );
    if failed {
        Work { buf: w.raw, raw: w.raw, fb: w1.fb }
    } else {
        w1
    }
}

/// A saved Smart W alternative, if any, holds one to sixteen characters.
pub open spec fn fallback_fits(fb: Option<Seq<char>>) -> bool {
    fb matches Some(f) ==> 1 <= f.len() <= 16
}

proof fn lemma_last_index_bounds(s: Seq<char>, j: int, t: Tone, d: char, l: char)
    ensures
        last_tone_key(s, j, t) == -1 || 0 <= last_tone_key(s, j, t) <= j,
        last_char_equal(s, j, d) == -1 || 0 <= last_char_equal(s, j, d) <= j,
        last_lower_equal(s, j, l) == -1 || 0 <= last_lower_equal(s, j, l) <= j,
    decreases j + 1,
{
    if j >= 0 && j < s.len() {
        lemma_last_index_bounds(s, j - 1, t, d, l);
    }
}

/// Taking an earlier key out of the raw keys keeps the key just typed.
proof fn lemma_cancel_raw_lengths(raw: Seq<char>, t: Tone, d: char, l: char)
    requires
        1 <= raw.len() <= 16,
    ensures
        1 <= cancel_raw_tone(raw, t).len() <= 16,
        1 <= cancel_raw_digit(raw, d).len() <= 16,
        1 <= cancel_raw_modifier(raw, l).len() <= 16,
{
    lemma_last_index_bounds(raw, raw.len() - 2, t, d, l);
}

/// The lengths that composing keeps: raw keys (the key just typed among
/// them) and a fitting Smart W alternative.
pub open spec fn work_fits(w: Work) -> bool {
    &&& w.buf.len() <= 16
    &&& 1 <= w.raw.len() <= 16
    &&& fallback_fits(w.fb)
}

proof fn lemma_fallback_lengths(fb: Option<Seq<char>>, t: Tone)
    requires
        fallback_fits(fb),
    ensures
        spec_smart_w_fallback(fb, t).1 matches Some(f) ==> 1 <= f.len() <= 16,
        spec_smart_w_fallback(fb, t).0 is None,
{
}

proof fn lemma_telex_tone_lengths(w: Work, c: char, t: Tone)
    requires
        work_fits(w),
    ensures
        ({
            let (w1, done) = spec_try_tone_telex(w, c, t);
            &&& work_fits(w1)
            &&& done ==> w1.buf.len() >= 1
        }),
{
    lemma_cancel_raw_lengths(w.raw, t, c, c);
    lemma_fallback_lengths(w.fb, t);
}

proof fn lemma_telex_modifier_lengths(w: Work, c: char, l: char, last: char)
    requires
        work_fits(w),
        w.buf.len() >= 1,
    ensures
        ({
            let (w1, done) = spec_try_modifier_telex(w, c, l, last);
            &&& work_fits(w1)
            &&& done ==> w1.buf.len() >= 1
        }),
{
    lemma_cancel_raw_lengths(w.raw, Tone::Level, c, l);
    let (w1, applied, cancelled) = spec_modifier_rule(w, c, l, last);
    assert(work_fits(w1));
    assert(applied ==> w1.buf.len() >= 1);
}

proof fn lemma_telex_lengths(w: Work, c: char)
    requires
        work_fits(w),
    ensures
        work_fits(spec_apply_telex(w, c)),
        spec_apply_telex(w, c).buf.len() >= 1,
{
    let l = spec_lower(c);
    if l != 'z' {
        if let Some(t) = spec_tone_of_key(l) {
            lemma_telex_tone_lengths(w, c, t);
        }
        let (w1, done1) = match spec_tone_of_key(l) {
            Some(t) => spec_try_tone_telex(w, c, t),
            None => (w, false),
        };
        if !done1 && w1.buf.len() > 0 {
            lemma_telex_modifier_lengths(w1, c, l, w1.buf.last());
        }
    }
}

proof fn lemma_mark_lengths(w: Work, d: char, key: char, keep_case: bool, spell: bool)
    requires
        work_fits(w),
    ensures
        work_fits(spec_mark_rule(w, d, key, keep_case, spell)),
        spec_mark_rule(w, d, key, keep_case, spell).buf.len() >= 1,
{
    lemma_cancel_raw_lengths(w.raw, spec_vni_tone(d), key, key);
    let (w1, applied) = spec_vni_digit_rule(w, d, key, keep_case);
    assert(work_fits(w1));
    assert(applied ==> w1.buf.len() >= 1);
    lemma_fallback_lengths(w1.fb, spec_vni_tone(d));
}

proof fn lemma_keystroke_lengths(m: InputMethod, spell: bool, w: Work, c: char)
    requires
        work_fits(w),
    ensures
        work_fits(spec_keystroke(m, spell, w, c)),
        spec_keystroke(m, spell, w, c).buf.len() >= 1,
{
    reveal(spec_keystroke);
    if m == InputMethod::Telex && !spec_is_ascii_digit(c) {
        lemma_telex_lengths(w, c);
    } else if m == InputMethod::Vni && !is_telex_key(c) && spec_is_ascii_digit(c) && c != '0' {
        lemma_mark_lengths(w, c, c, false, spell);
    } else if m == InputMethod::Viqr {
        if let Some(d) = viqr_mark_digit(c) {
            lemma_cancel_raw_lengths(w.raw, Tone::Level, c, c);
            lemma_mark_lengths(w, d, c, true, spell);
        }
    }
}

/// One step of recomposing leaves one to sixteen characters of text and of
/// raw keys, and a fitting Smart W alternative.
proof fn lemma_step_lengths(m: InputMethod, spell: bool, w: Work, c: char)
    requires
        w.buf.len() <= 16,
        w.raw.len() <= 16,
        fallback_fits(w.fb),
    ensures
        ({
            let w2 = spec_rebuild_step(m, spell, w, c);
            &&& work_fits(w2)
            &&& w2.buf.len() >= 1
        }),
{
    lemma_keystroke_lengths(m, spell, Work { buf: w.buf, raw: push16(w.raw, c), fb: w.fb }, c);
}

proof fn lemma_replay_lengths(m: InputMethod, spell: bool, keys: Seq<char>, k: int, w: Work)
    requires
        0 <= k,
        w.buf.len() <= 16,
        w.raw.len() <= 16,
        fallback_fits(w.fb),
        k >= keys.len() ==> w.buf.len() >= 1 && w.raw.len() >= 1,
    ensures
        ({
            let w1 = spec_replay(m, spell, keys, k, w).0;
            &&& 1 <= w1.buf.len() <= 16
            &&& 1 <= w1.raw.len() <= 16
            &&& fallback_fits(w1.fb)
        }),
    decreases keys.len() - k,
{
    if k < keys.len() {
        lemma_step_lengths(m, spell, w, keys[k]);
        let w1 = spec_rebuild_step(m, spell, w, keys[k]);
        if !(spell && !spec_is_valid_syllable(w1.buf)) {
            lemma_replay_lengths(m, spell, keys, k + 1, w1);
        }
    }
}

/// Recomposing a word from one to sixteen raw keys gives one to sixteen
/// characters of text and of raw keys.
pub proof fn lemma_rebuild_lengths(m: InputMethod, spell: bool, w: Work)
    requires
        1 <= w.raw.len() <= 16,
        fallback_fits(w.fb),
    ensures
        1 <= spec_rebuild(m, spell, w).buf.len() <= 16,
        1 <= spec_rebuild(m, spell, w).raw.len() <= 16,
        fallback_fits(spec_rebuild(m, spell, w).fb),
{
    lemma_replay_lengths(m, spell, w.raw, 0, Work { buf: Seq::empty(), raw: Seq::empty(), fb: w.fb });
}

proof fn lemma_replay_spell_checked(m: InputMethod, keys: Seq<char>, k: int, w: Work)
    requires
        spec_is_valid_syllable(w.buf),
    ensures
        spec_replay(m, true, keys, k, w).1 || spec_is_valid_syllable(spec_replay(m, true, keys, k, w).0.buf),
    decreases keys.len() - k,
{
    if 0 <= k < keys.len() {
        let w1 = spec_rebuild_step(m, true, w, keys[k]);
        if spec_is_valid_syllable(w1.buf) {
            lemma_replay_spell_checked(m, keys, k + 1, w1);
        }
    }
}

/// With the spell check on, recomposed text is a Vietnamese syllable, or
/// else the raw keys exactly as typed (and those stay the raw keys).
pub proof fn lemma_rebuild_spell_checked(m: InputMethod, w: Work)
    ensures
        spec_is_valid_syllable(spec_rebuild(m, true, w).buf) || (spec_rebuild(m, true, w).buf
            == w.raw && spec_rebuild(m, true, w).raw == w.raw),
{
    let init = Work { buf: Seq::empty(), raw: Seq::empty(), fb: w.fb };
    lemma_syllable_length(init.buf);
    lemma_replay_spell_checked(m, w.raw, 0, init);
}

/// A letter's base form carries no tone mark.
pub proof fn lemma_base_is_toneless(c: char)
    requires
        spec_tone(c) != Tone::Level,
    ensures
        spec_tone(spec_base(c)) == Tone::Level,
{
}

/// Telex `z` on a word with tone marks takes every one of them off, and
/// changes nothing else.
pub proof fn lemma_z_clears_tones(w: Work)
    requires
        has_any_tone(w.buf),
    ensures
        !has_any_tone(spec_apply_telex(w, 'z').buf),
        spec_apply_telex(w, 'z').buf.len() == w.buf.len(),
        spec_apply_telex(w, 'z').raw == w.raw,
{
    let r = spec_apply_telex(w, 'z').buf;
    assert(r == strip_any_tone(w.buf));
    assert forall|i: int| 0 <= i < r.len() implies spec_tone(#[trigger] r[i]) == Tone::Level by {
        if spec_tone(w.buf[i]) != Tone::Level {
            lemma_base_is_toneless(w.buf[i]);
        }
    }
}

/// `c` is one of `a e i o u y` in either case.
pub open spec fn is_plain_vowel(c: char) -> bool {
    matches!(spec_lower(c), 'a' | 'e' | 'i' | 'o' | 'u' | 'y')
}

/// VNI `0` on a word of Vietnamese vowels (either case) leaves plain vowels
/// without tone marks or vowel modifiers.
pub proof fn lemma_vni_zero_plain_vowels(w: Work, spell: bool)
    requires
        forall|i: int| 0 <= i < w.buf.len() ==> spec_is_vowel(#[trigger] w.buf[i]),
        vni_zero_changes(w.buf),
    ensures
        !has_any_tone(spec_apply_vni(w, '0', spell).buf),
        forall|i: int|
            0 <= i < w.buf.len() ==> is_plain_vowel(#[trigger] spec_apply_vni(w, '0', spell).buf[i]),
        spec_apply_vni(w, '0', spell).buf.len() == w.buf.len(),
{
    let r = spec_apply_vni(w, '0', spell).buf;
    assert(r == vni_zero_map(w.buf));
    assert forall|i: int| 0 <= i < r.len() implies spec_tone(#[trigger] r[i]) == Tone::Level
        && is_plain_vowel(r[i]) by {
        assert(spec_is_vowel(w.buf[i]));
    }
}

/// A Telex tone key pressed on a word that already has that tone takes the
/// tone off and is typed as a letter.
pub proof fn lemma_same_tone_twice_cancels(w: Work, c: char, t: Tone)
    requires
        spec_tone_of_key(spec_lower(c)) == Some(t),
        spec_tone_target(spec_complete_horn(w.buf)) is Some,
        has_tone(spec_complete_horn(w.buf), t),
    ensures
        spec_apply_telex(w, c).buf == push16(strip_tone(spec_complete_horn(w.buf), t), c),
{
}

proof fn lemma_viqr_char_twice(d: char, ch: char)
    requires
        '6' <= d <= '9',
        is_cased_known(ch),
        !carries_modifier(d, ch),
        d == '8' ==> !spec_is_upper(ch),
    ensures
        drop_modifier_char(d, vni_modify_char(d, true, ch)) == ch,
        !vni_modifies(d, vni_modify_char(d, true, ch)),
        carries_modifier(d, vni_modify_char(d, true, ch)) == vni_modifies(d, ch),
{
}

/// A VIQR modifier mark (`^ + ( -`) pressed again right after it took
/// effect takes the modifier off and is typed as it is: `a^^ → a^`. Stated
/// for words of ASCII and Vietnamese letters that did not carry the
/// modifier before (and, for the breve, in lowercase).
pub proof fn lemma_viqr_modifier_twice(w: Work, c: char, spell: bool)
    requires
        viqr_mark_digit(c) matches Some(d) && '6' <= d <= '9' && vni_modify_applies(d, w.buf)
            && forall|i: int|
            0 <= i < w.buf.len() ==> is_cased_known(#[trigger] w.buf[i]) && !carries_modifier(
                d,
                w.buf[i],
            ) && (d == '8' ==> !spec_is_upper(w.buf[i])),
    ensures
        ({
            let d = viqr_mark_digit(c)->0;
            let once = Work { buf: vni_modify_map(d, true, w.buf), raw: w.raw, fb: w.fb };
            spec_apply_viqr(once, c, spell).buf == push16(w.buf, c)
        }),
{
    let d = viqr_mark_digit(c)->0;
    let b = w.buf;
    let m = vni_modify_map(d, true, b);
    assert forall|i: int| 0 <= i < b.len() implies drop_modifier_char(d, #[trigger] m[i]) == b[i]
        && !vni_modifies(d, m[i]) && carries_modifier(d, m[i]) == vni_modifies(d, b[i]) by {
        lemma_viqr_char_twice(d, b[i]);
    }
    assert(drop_modifier_map(d, m) =~= b);
    let i0 = choose|i: int| 0 <= i < b.len() && vni_modifies(d, #[trigger] b[i]);
    assert(carries_modifier(d, m[i0]));
    assert(has_modifier(d, m));
    assert(!vni_modify_applies(d, m));
}

proof fn lemma_u_base_kept(ch: char, t: Tone)
    requires
        spec_lower(spec_base(ch)) == 'u',
    ensures
        spec_lower(spec_base(spec_base(ch))) == 'u',
        spec_lower(spec_base(spec_add_tone(spec_base(ch), t))) == 'u',
        spec_lower(spec_base(spec_add_tone(ch, t))) == 'u',
{
}

proof fn lemma_shift_keeps_u(sb: Seq<char>, k: int)
    requires
        0 <= k < sb.len(),
        spec_lower(spec_base(sb[k])) == 'u',
    ensures
        spec_shift_tone(sb).len() == sb.len(),
        spec_lower(spec_base(spec_shift_tone(sb)[k])) == 'u',
{
    let t = first_tone_from(sb, 0);
    let stripped = strip_all(sb);
    lemma_u_base_kept(sb[k], t);
    if t != Tone::Level {
        match spec_tone_target(stripped) {
            Some(i) => {
                lemma_u_base_kept(stripped[k], t);
            },
            None => {},
        }
    }
}

proof fn lemma_modifier_rule_keeps_qu(w: Work, c: char, last: char)
    requires
        w.buf.len() >= 3,
        spec_lower(w.buf[w.buf.len() - 3]) == 'q',
        spec_lower(c) == 'w',
    ensures
        ({
            let n = w.buf.len();
            let w1 = spec_modifier_rule(w, c, spec_lower(c), last).0;
            &&& w1.buf.len() >= n
            &&& w1.buf[n - 2] == w.buf[n - 2]
        }),
{
    assert(!smart_w_applies(w.buf, spec_lower(c)));
}

/// Smart W never puts the horn on the `u` of `qu`: with the text ending in
/// `q`, `u` (any tone, either case) and one more letter, a Telex `w` leaves
/// that `u` a `u` (so `qua + w` gives `quă` and `quo + w` gives `quơ`, never
/// `qưa` or `qươ`), and keeps every character it had.
pub proof fn lemma_no_smart_w_after_q(w: Work, c: char)
    requires
        w.buf.len() >= 3,
        spec_lower(w.buf[w.buf.len() - 3]) == 'q',
        spec_lower(spec_base(w.buf[w.buf.len() - 2])) == 'u',
        spec_lower(c) == 'w',
    ensures
        spec_apply_telex(w, c).buf.len() >= w.buf.len(),
        spec_lower(spec_base(spec_apply_telex(w, c).buf[w.buf.len() - 2])) == 'u',
{
    let b = w.buf;
    let n = b.len();
    let l = spec_lower(c);
    let last = b.last();
    assert(spec_tone_of_key(l) is None);
    lemma_modifier_rule_keeps_qu(w, c, last);
    let (w1, applied, cancelled) = spec_modifier_rule(w, c, l, last);
    lemma_shift_keeps_u(w1.buf, n - 2);
    let (w2, done2) = spec_try_modifier_telex(w, c, l, last);
    assert(w2.buf.len() >= n);
    assert(spec_lower(spec_base(w2.buf[n - 2])) == 'u');
    let r = spec_apply_telex(w, c);
    assert(r == (if done2 {
        w2
    } else {
        Work { buf: push16(w2.buf, c), raw: w2.raw, fb: None }
    }));
}

/// Keys that do not belong to the typing method are taken literally: digits
/// in Telex, Telex keys in VNI are appended as typed and change nothing else.
pub proof fn lemma_method_isolation(m: InputMethod, spell: bool, w: Work, c: char)
    requires
        (m == InputMethod::Telex && spec_is_ascii_digit(c)) || (m == InputMethod::Vni
            && is_telex_key(c)),
    ensures
        spec_keystroke(m, spell, w, c) == (Work { buf: push16(w.buf, c), raw: w.raw, fb: w.fb }),
{
    reveal(spec_keystroke);
}

// ---------------------------------------------------------------------------
// Executable rules
// ---------------------------------------------------------------------------

/// The state held in the three buffers is `w`.
pub open spec fn holds(buf: CharBuffer, raw: CharBuffer, fb: Option<CharBuffer>, w: Work) -> bool {
    &&& buf@ == w.buf
    &&& raw@ == w.raw
    &&& opt_view(fb) == w.fb
}

/// The state held in the three buffers.
pub open spec fn work_of(buf: CharBuffer, raw: CharBuffer, fb: Option<CharBuffer>) -> Work {
    Work { buf: buf@, raw: raw@, fb: opt_view(fb) }
}

/// Takes tone `t` off every character that carries it.
fn strip_tone_in(buf: &mut CharBuffer, t: Tone)
    ensures
        final(buf)@ == strip_tone(old(buf)@, t),
{
    let n = buf.len();
    let ghost b0 = buf@;
    let mut i: usize = 0;
    while i < n
        invariant
            n == b0.len(),
            buf@.len() == n,
            i <= n,
            forall|j: int| 0 <= j < i ==> buf@[j] == strip_tone(b0, t)[j],
            forall|j: int| i <= j < n ==> buf@[j] == b0[j],
        decreases n - i,
    {
        let (b, tone) = get_base_vowel_and_tone(buf.as_slice()[i]);
        if tone == t {
            buf.replace_at(i, b);
        }
        i = i + 1;
    }
    assert(buf@ =~= strip_tone(b0, t));
}

/// Takes every tone off; reports whether there was one.
fn strip_any_tone_in(buf: &mut CharBuffer) -> (r: bool)
    ensures
        final(buf)@ == strip_any_tone(old(buf)@),
        r == has_any_tone(old(buf)@),
{
    let n = buf.len();
    let ghost b0 = buf@;
    let mut found = false;
    let mut i: usize = 0;
    while i < n
        invariant
            n == b0.len(),
            buf@.len() == n,
            i <= n,
            forall|j: int| 0 <= j < i ==> buf@[j] == strip_any_tone(b0)[j],
            forall|j: int| i <= j < n ==> buf@[j] == b0[j],
            found == exists|j: int| 0 <= j < i && spec_tone(#[trigger] b0[j]) != Tone::Level,
        decreases n - i,
    {
        let ch = buf.as_slice()[i];
        assert(ch == b0[i as int]);
        let (b, tone) = get_base_vowel_and_tone(ch);
        if tone != Tone::Level {
            found = true;
            buf.replace_at(i, b);
        }
        i = i + 1;
    }
    assert(buf@ =~= strip_any_tone(b0));
    found
}

/// Takes the marks off every vowel but the one at `keep`.
fn strip_vowels_except_in(buf: &mut CharBuffer, keep: usize)
    ensures
        final(buf)@ == strip_vowels_except(old(buf)@, keep as int),
{
    let n = buf.len();
    let ghost b0 = buf@;
    let mut i: usize = 0;
    while i < n
        invariant
            n == b0.len(),
            buf@.len() == n,
            i <= n,
            forall|j: int| 0 <= j < i ==> buf@[j] == strip_vowels_except(b0, keep as int)[j],
            forall|j: int| i <= j < n ==> buf@[j] == b0[j],
        decreases n - i,
    {
        let ch = buf.as_slice()[i];
        if i != keep && is_vowel(ch) {
            let (other_base, _) = get_base_vowel_and_tone(ch);
            buf.replace_at(i, other_base);
        }
        i = i + 1;
    }
    assert(buf@ =~= strip_vowels_except(b0, keep as int));
}

/// Whether some character carries tone `t`.
fn has_tone_in(buf: &CharBuffer, t: Tone) -> (r: bool)
    ensures
        r == has_tone(buf@, t),
{
    let n = buf.len();
    let mut i: usize = 0;
    while i < n
        invariant
            n == buf@.len(),
            i <= n,
            forall|j: int| 0 <= j < i ==> spec_tone(#[trigger] buf@[j]) != t,
        decreases n - i,
    {
        if get_base_vowel_and_tone(buf.as_slice()[i]).1 == t {
            return true;
        }
        i = i + 1;
    }
    false
}

proof fn lemma_first_tone_from(s: Seq<char>, i: int)
    requires
        0 <= i <= s.len(),
        forall|j: int| 0 <= j < i ==> spec_tone(#[trigger] s[j]) == Tone::Level,
    ensures
        first_tone_from(s, 0) == first_tone_from(s, i),
    decreases i,
{
    if i > 0 {
        lemma_first_tone_from(s, i - 1);
    }
}

/// The first tone carried by a character of `buf`.
fn first_tone(buf: &CharBuffer) -> (r: Tone)
    ensures
        r == first_tone_from(buf@, 0),
{
    let n = buf.len();
    let mut i: usize = 0;
    while i < n
        invariant
            n == buf@.len(),
            i <= n,
            forall|j: int| 0 <= j < i ==> spec_tone(#[trigger] buf@[j]) == Tone::Level,
        decreases n - i,
    {
        let t = get_base_vowel_and_tone(buf.as_slice()[i]).1;
        if t != Tone::Level {
            proof {
                lemma_first_tone_from(buf@, i as int);
            }
            return t;
        }
        i = i + 1;
    }
    proof {
        lemma_first_tone_from(buf@, i as int);
    }
    Tone::Level
}

/// Moves the syllable's tone onto the vowel that should carry it.
fn apply_dynamic_tone_shifting(buf: &mut CharBuffer)
    ensures
        final(buf)@ == spec_shift_tone(old(buf)@),
{
    let n = buf.len();
    let ghost b0 = buf@;
    let tone = first_tone(buf);
    if tone == Tone::Level {
        return;
    }
    let mut temp = *buf;
    let mut j: usize = 0;
    while j < n
        invariant
            n == b0.len(),
            temp@.len() == n,
            j <= n,
            forall|k: int| 0 <= k < j ==> temp@[k] == strip_all(b0)[k],
            forall|k: int| j <= k < n ==> temp@[k] == b0[k],
        decreases n - j,
    {
        let (base, _) = get_base_vowel_and_tone(temp.as_slice()[j]);
        temp.replace_at(j, base);
        j = j + 1;
    }
    assert(temp@ =~= strip_all(b0));
    proof {
        lemma_tone_target_is_vowel(temp@);
    }
    if let Some(target_idx) = find_tone_target_index(temp.as_slice()) {
        let target_char = temp.as_slice()[target_idx];
        let new_char = add_tone(target_char, tone);
        temp.replace_at(target_idx, new_char);
        *buf = temp;
    }
}

/// Strips the vowels and puts `tone` on the target vowel; reports whether
/// there was one.
fn apply_tone_to_buffer(buf: &mut CharBuffer, tone: Tone) -> (r: bool)
    ensures
        (final(buf)@, r) == spec_apply_tone_to_buffer(old(buf)@, tone),
{
    let n = buf.len();
    let ghost b0 = buf@;
    let mut i: usize = 0;
    while i < n
        invariant
            n == b0.len(),
            buf@.len() == n,
            i <= n,
            forall|j: int| 0 <= j < i ==> buf@[j] == strip_vowels(b0)[j],
            forall|j: int| i <= j < n ==> buf@[j] == b0[j],
        decreases n - i,
    {
        let ch = buf.as_slice()[i];
        let (base, _) = get_base_vowel_and_tone(ch);
        if is_vowel(ch) {
            buf.replace_at(i, base);
        }
        i = i + 1;
    }
    assert(buf@ =~= strip_vowels(b0));
    proof {
        lemma_tone_target_is_vowel(buf@);
    }
    if let Some(target_idx) = find_tone_target_index(buf.as_slice()) {
        let base = get_base_vowel_and_tone(buf.as_slice()[target_idx]).0;
        let new_char = add_tone(base, tone);
        buf.replace_at(target_idx, new_char);
        true
    } else {
        false
    }
}

/// Uses up the saved Smart W alternative with `tone`; returns it if that
/// gives a valid syllable.
fn try_smart_w_fallback(fb: &mut Option<CharBuffer>, tone: Tone) -> (r: Option<CharBuffer>)
    ensures
        (opt_view(*final(fb)), opt_view(r)) == spec_smart_w_fallback(opt_view(*old(fb)), tone),
{
    let taken = fb.take();
    match taken {
        None => None,
        Some(f) => {
            let mut fallback_buf = f;
            apply_tone_to_buffer(&mut fallback_buf, tone);
            if is_valid_vietnamese_syllable(fallback_buf.as_slice()) {
                Some(fallback_buf)
            } else {
                None
            }
        },
    }
}

/// Takes the last earlier Telex key for `tone` out of the raw keys.
fn cancel_raw_tone_char(raw: &mut CharBuffer, tone: Tone)
    ensures
        final(raw)@ == cancel_raw_tone(old(raw)@, tone),
{
    let r_len = raw.len();
    let ghost s = raw@;
    if r_len < 2 {
        return;
    }
    let mut j: usize = r_len - 1;
    while j > 0
        invariant
            r_len == s.len(),
            s == raw@,
            s == old(raw)@,
            r_len >= 2,
            j <= r_len - 1,
            last_tone_key(s, s.len() - 2, tone) == last_tone_key(s, j - 1, tone),
        decreases j,
    {
        let rc = raw.as_slice()[j - 1];
        if Tone::from_char(fast_lower(rc)) == Some(tone) {
            raw.remove(j - 1);
            return;
        }
        j = j - 1;
    }
}

/// Takes the last earlier digit `digit` out of the raw keys.
fn cancel_raw_digit_char(raw: &mut CharBuffer, digit: char)
    ensures
        final(raw)@ == cancel_raw_digit(old(raw)@, digit),
{
    let r_len = raw.len();
    let ghost s = raw@;
    if r_len < 2 {
        return;
    }
    let mut j: usize = r_len - 1;
    while j > 0
        invariant
            r_len == s.len(),
            s == raw@,
            s == old(raw)@,
            r_len >= 2,
            j <= r_len - 1,
            last_char_equal(s, s.len() - 2, digit) == last_char_equal(s, j - 1, digit),
        decreases j,
    {
        if raw.as_slice()[j - 1] == digit {
            raw.remove(j - 1);
            return;
        }
        j = j - 1;
    }
}

/// Takes the last earlier key whose lowercase is `l` out of the raw keys.
fn cancel_raw_modifier_char(raw: &mut CharBuffer, l: char)
    ensures
        final(raw)@ == cancel_raw_modifier(old(raw)@, l),
{
    let r_len = raw.len();
    let ghost s = raw@;
    if r_len < 2 {
        return;
    }
    let mut j: usize = r_len - 1;
    while j > 0
        invariant
            r_len == s.len(),
            s == raw@,
            s == old(raw)@,
            r_len >= 2,
            j <= r_len - 1,
            last_lower_equal(s, s.len() - 2, l) == last_lower_equal(s, j - 1, l),
        decreases j,
    {
        if fast_lower(raw.as_slice()[j - 1]) == l {
            raw.remove(j - 1);
            return;
        }
        j = j - 1;
    }
}

/// Tone key `next_char` (tone `input_tone`) in Telex; see
/// [`spec_try_tone_telex`]. `snapshot_data`/`len` hold the text on entry.
fn try_apply_tone_telex(
    buffer: &mut CharBuffer,
    raw: &mut CharBuffer,
    fb: &mut Option<CharBuffer>,
    next_char: char,
    input_tone: Tone,
    snapshot_data: &[char; 16],
    len: usize,
) -> (r: bool)
    requires
        len == old(buffer)@.len(),
        old(buffer)@ == snapshot_data@.take(len as int),
    ensures
        holds(
            *final(buffer),
            *final(raw),
            *final(fb),
            spec_try_tone_telex(
                work_of(*old(buffer), *old(raw), *old(fb)),
                next_char,
                input_tone,
            ).0,
        ),
        r == spec_try_tone_telex(work_of(*old(buffer), *old(raw), *old(fb)), next_char, input_tone).1,
{
    complete_horn_in(buffer);
    let tone_already_exists = has_tone_in(buffer, input_tone);
    proof {
        lemma_tone_target_is_vowel(buffer@);
    }
    if let Some(target_idx) = find_tone_target_index(buffer.as_slice()) {
        let current_char = buffer.as_slice()[target_idx];
        let (base, current_tone) = get_base_vowel_and_tone(current_char);
        if current_tone == input_tone || tone_already_exists {
            strip_tone_in(buffer, input_tone);
            buffer.push(next_char);
            cancel_raw_tone_char(raw, input_tone);
            return true;
        }
        let new_char = add_tone(base, input_tone);
        strip_vowels_except_in(buffer, target_idx);
        buffer.replace_at(target_idx, new_char);
        if is_valid_vietnamese_syllable(buffer.as_slice()) {
            return true;
        }
        if let Some(fallback) = try_smart_w_fallback(fb, input_tone) {
            *buffer = fallback;
            return true;
        }
    }
    buffer.restore(snapshot_data, len);
    false
}

/// Completes every `ưo` of `buffer` to `ươ`; see [`spec_complete_horn`].
fn complete_horn_in(buffer: &mut CharBuffer)
    ensures
        final(buffer)@ == spec_complete_horn(old(buffer)@),
{
    let orig = *buffer;
    let ghost b0 = buffer@;
    let n = buffer.len();
    let mut i: usize = 1;
    while i < n
        invariant
            orig@ == b0,
            n == b0.len(),
            buffer@.len() == n,
            1 <= i,
            i <= n || n == 0,
            forall|j: int| 0 <= j < i && j < n ==> buffer@[j] == spec_complete_horn(b0)[j],
            forall|j: int| i <= j < n ==> buffer@[j] == b0[j],
        decreases n - i,
    {
        let prev = orig.as_slice()[i - 1];
        let ch = orig.as_slice()[i];
        let (prev_base, _) = get_base_vowel_and_tone(prev);
        let (base, tone) = get_base_vowel_and_tone(ch);
        if fast_lower(prev_base) == 'ư' && fast_lower(base) == 'o' {
            buffer.replace_at(i, horn_o_of(ch, tone));
        }
        i = i + 1;
    }
    assert(buffer@ =~= spec_complete_horn(b0));
}

/// `ư`/`Ư` with `tone`, in the case of `like`.
fn horn_u_of(like: char, tone: Tone) -> (r: char)
    ensures
        r == horn_u(like, tone),
{
    add_tone(if is_upper(like) { 'Ư' } else { 'ư' }, tone)
}

/// `ơ`/`Ơ` with `tone`, in the case of `like`.
fn horn_o_of(like: char, tone: Tone) -> (r: char)
    ensures
        r == horn_o(like, tone),
{
    add_tone(if is_upper(like) { 'Ơ' } else { 'ơ' }, tone)
}

/// Fires the first vowel-modifier rule for key `next_char` (lowercase
/// `next_char_lower`) on `last_char`; see [`spec_modifier_rule`]. Returns
/// whether a rule fired and whether it was a cancellation.
fn modifier_rule_telex(
    buffer: &mut CharBuffer,
    raw: &mut CharBuffer,
    fb: &mut Option<CharBuffer>,
    next_char: char,
    next_char_lower: char,
    last_char: char,
) -> (r: (bool, bool))
    requires
        old(buffer)@.len() >= 1,
        last_char == old(buffer)@.last(),
    ensures
        holds(
            *final(buffer),
            *final(raw),
            *final(fb),
            spec_modifier_rule(
                work_of(*old(buffer), *old(raw), *old(fb)),
                next_char,
                next_char_lower,
                last_char,
            ).0,
        ),
        r.0 == spec_modifier_rule(
            work_of(*old(buffer), *old(raw), *old(fb)),
            next_char,
            next_char_lower,
            last_char,
        ).1,
        r.1 == spec_modifier_rule(
            work_of(*old(buffer), *old(raw), *old(fb)),
            next_char,
            next_char_lower,
            last_char,
        ).2,
{
    let ghost b0 = buffer@;
    let buf_len = buffer.len();
    if next_char_lower == 'w' && buf_len >= 2 {
        let second_last = buffer.as_slice()[buf_len - 2];
        let (second_last_base, second_last_tone) = get_base_vowel_and_tone(second_last);
        let sbl = fast_lower(second_last_base);
        let (last_base, last_tone) = get_base_vowel_and_tone(last_char);
        let ll = fast_lower(last_base);
        if sbl == 'u' && (ll == 'o' || ll == 'a' || ll == 'u') {
            let is_q_exception = buf_len >= 3 && fast_lower(buffer.as_slice()[buf_len - 3]) == 'q';
            if !is_q_exception {
                let new_u = horn_u_of(second_last, second_last_tone);
                if ll == 'o' {
                    let mut fallback = *buffer;
                    let fallback_o = horn_o_of(last_char, last_tone);
                    fallback.replace_last(fallback_o);
                    *fb = Some(fallback);
                    buffer.replace_at(buf_len - 2, new_u);
                    buffer.replace_last(fallback_o);
                } else {
                    buffer.replace_at(buf_len - 2, new_u);
                }
                return (true, false);
            }
        }
    }
    if let Some(removed) = remove_vowel_modifier(last_char, next_char_lower) {
        buffer.replace_last(removed);
        buffer.push(next_char);
        cancel_raw_modifier_char(raw, next_char_lower);
        return (true, true);
    }
    if fast_lower(last_char) == 'đ' && next_char_lower == 'd' {
        buffer.replace_last(if is_upper(last_char) { 'D' } else { 'd' });
        buffer.push('d');
        return (true, true);
    }
    if let Some(modified) = apply_vowel_modifier(last_char, next_char_lower) {
        buffer.replace_last(modified);
        (true, false)
    } else if fast_lower(last_char) == 'd' && next_char_lower == 'd' {
        buffer.replace_last(if is_upper(last_char) { 'Đ' } else { 'đ' });
        (true, false)
    } else if next_char_lower == 'w' {
        buffer.push(if is_upper(next_char) { 'Ư' } else { 'ư' });
        (true, false)
    } else {
        (false, false)
    }
}

/// Vowel modifier or `d` key in Telex; see [`spec_try_modifier_telex`].
fn try_apply_modifier_telex(
    buffer: &mut CharBuffer,
    raw: &mut CharBuffer,
    fb: &mut Option<CharBuffer>,
    next_char: char,
    next_char_lower: char,
    last_char: char,
    snapshot_data: &[char; 16],
    len: usize,
) -> (r: bool)
    requires
        len == old(buffer)@.len(),
        len >= 1,
        old(buffer)@ == snapshot_data@.take(len as int),
        last_char == old(buffer)@.last(),
    ensures
        holds(
            *final(buffer),
            *final(raw),
            *final(fb),
            spec_try_modifier_telex(
                work_of(*old(buffer), *old(raw), *old(fb)),
                next_char,
                next_char_lower,
                last_char,
            ).0,
        ),
        r == spec_try_modifier_telex(
            work_of(*old(buffer), *old(raw), *old(fb)),
            next_char,
            next_char_lower,
            last_char,
        ).1,
{
    let (applied, cancelled) = modifier_rule_telex(
        buffer,
        raw,
        fb,
        next_char,
        next_char_lower,
        last_char,
    );
    if applied {
        if cancelled {
            return true;
        }
        apply_dynamic_tone_shifting(buffer);
        if is_valid_vietnamese_syllable(buffer.as_slice()) {
            return true;
        }
        buffer.restore(snapshot_data, len);
        return false;
    }
    false
}

/// One key in Telex; see [`spec_apply_telex`].
fn apply_telex_internal(
    buffer: &mut CharBuffer,
    raw: &mut CharBuffer,
    fb: &mut Option<CharBuffer>,
    next_char: char,
)
    ensures
        holds(
            *final(buffer),
            *final(raw),
            *final(fb),
            spec_apply_telex(work_of(*old(buffer), *old(raw), *old(fb)), next_char),
        ),
{
    let next_char_lower = fast_lower(next_char);
    let (snapshot_data, len) = buffer.snapshot();
    proof {
        CharBuffer::lemma_view(*buffer);
    }
    if next_char_lower == 'z' {
        let ghost b0 = buffer@;
        let has_tone = strip_any_tone_in(buffer);
        if !has_tone {
            assert(strip_any_tone(b0) =~= b0);
            buffer.push(next_char);
        }
        return;
    }
    if let Some(input_tone) = Tone::from_char(next_char_lower) {
        if try_apply_tone_telex(buffer, raw, fb, next_char, input_tone, &snapshot_data, len) {
            return;
        }
    }
    if let Some(last_char) = buffer.last() {
        if try_apply_modifier_telex(
            buffer,
            raw,
            fb,
            next_char,
            next_char_lower,
            last_char,
            &snapshot_data,
            len,
        ) {
            return;
        }
    }
    *fb = None;
    buffer.push(next_char);
}

/// The tone of VNI digit `digit` (`1`–`5`); [`Tone::Level`] otherwise.
fn vni_digit_to_tone(digit: char) -> (r: Tone)
    ensures
        r == spec_vni_tone(digit),
{
    match digit {
        '1' => Tone::Acute,
        '2' => Tone::Grave,
        '3' => Tone::Hook,
        '4' => Tone::Tilde,
        '5' => Tone::Underdot,
        _ => Tone::Level,
    }
}

/// Tone digit in VNI; see [`spec_try_tone_vni`].
fn try_apply_tone_vni(
    buffer: &mut CharBuffer,
    raw: &mut CharBuffer,
    fb: &mut Option<CharBuffer>,
    digit: char,
    key: char,
) -> (r: bool)
    ensures
        holds(
            *final(buffer),
            *final(raw),
            *final(fb),
            spec_try_tone_vni(work_of(*old(buffer), *old(raw), *old(fb)), digit, key).0,
        ),
        r == spec_try_tone_vni(work_of(*old(buffer), *old(raw), *old(fb)), digit, key).1,
{
    let input_tone = vni_digit_to_tone(digit);
    let tone_already_exists = has_tone_in(buffer, input_tone);
    proof {
        lemma_tone_target_is_vowel(buffer@);
    }
    if let Some(target_idx) = find_tone_target_index(buffer.as_slice()) {
        let current_char = buffer.as_slice()[target_idx];
        let (base, current_tone) = get_base_vowel_and_tone(current_char);
        if current_tone == input_tone || tone_already_exists {
            strip_tone_in(buffer, input_tone);
            cancel_raw_digit_char(raw, key);
            return false;
        }
        let new_char = add_tone(base, input_tone);
        strip_vowels_except_in(buffer, target_idx);
        buffer.replace_at(target_idx, new_char);
        return true;
    }
    false
}

/// One character under VNI modifier digit `digit`, and whether it changed.
fn modify_char_vni(digit: char, keep_case: bool, ch: char) -> (r: (char, bool))
    ensures
        r == (vni_modify_char(digit, keep_case, ch), vni_modifies(digit, ch)),
{
    let (base, tone) = get_base_vowel_and_tone(ch);
    let l = fast_lower(base);
    if digit == '8' {
        if l == 'a' {
            (add_tone('ă', tone), true)
        } else {
            (ch, false)
        }
    } else if digit == '9' {
        if l == 'd' && tone == Tone::Level {
            (if keep_case && is_upper(base) { 'Đ' } else { 'đ' }, true)
        } else {
            (ch, false)
        }
    } else {
        let up = is_upper(base);
        let new_base = if digit == '6' {
            match l {
                'a' => if up { 'Â' } else { 'â' },
                'e' => if up { 'Ê' } else { 'ê' },
                'o' => if up { 'Ô' } else { 'ô' },
                _ => base,
            }
        } else if digit == '7' {
            match l {
                'o' => if up { 'Ơ' } else { 'ơ' },
                'u' => if up { 'Ư' } else { 'ư' },
                _ => base,
            }
        } else {
            base
        };
        if new_base != base {
            (add_tone(new_base, tone), true)
        } else {
            (ch, false)
        }
    }
}

/// Applies VNI modifier digit `digit` to every character; reports whether
/// one changed.
fn modify_all_vni(buffer: &mut CharBuffer, digit: char, keep_case: bool) -> (r: bool)
    ensures
        final(buffer)@ == vni_modify_map(digit, keep_case, old(buffer)@),
        r == vni_modify_applies(digit, old(buffer)@),
{
    let n = buffer.len();
    let ghost b0 = buffer@;
    let mut applied = false;
    let mut i: usize = 0;
    while i < n
        invariant
            n == b0.len(),
            buffer@.len() == n,
            i <= n,
            forall|j: int| 0 <= j < i ==> buffer@[j] == vni_modify_map(digit, keep_case, b0)[j],
            forall|j: int| i <= j < n ==> buffer@[j] == b0[j],
            applied == exists|j: int| 0 <= j < i && vni_modifies(digit, #[trigger] b0[j]),
        decreases n - i,
    {
        let ch = buffer.as_slice()[i];
        assert(ch == b0[i as int]);
        let (new_char, changed) = modify_char_vni(digit, keep_case, ch);
        if changed {
            buffer.replace_at(i, new_char);
            applied = true;
        }
        i = i + 1;
    }
    assert(buffer@ =~= vni_modify_map(digit, keep_case, b0));
    applied
}

/// VNI `6`: `a e o` become `â ê ô`.
fn try_apply_circumflex_vni(buffer: &mut CharBuffer, keep_case: bool) -> (r: bool)
    ensures
        final(buffer)@ == vni_modify_map('6', keep_case, old(buffer)@),
        r == vni_modify_applies('6', old(buffer)@),
{
    modify_all_vni(buffer, '6', keep_case)
}

/// VNI `7`: `o u` become `ơ ư`; after `u` + `o` the `uơ` alternative is saved
/// for Smart W.
fn try_apply_horn_vni(buffer: &mut CharBuffer, fb: &mut Option<CharBuffer>, keep_case: bool) -> (r: bool)
    ensures
        final(buffer)@ == vni_modify_map('7', keep_case, old(buffer)@),
        opt_view(*final(fb)) == vni_horn_fallback(old(buffer)@, opt_view(*old(fb))),
        r == vni_modify_applies('7', old(buffer)@),
{
    let len = buffer.len();
    if len >= 2 {
        let second_last_base = fast_lower(get_base_vowel_and_tone(buffer.as_slice()[len - 2]).0);
        let last_base = fast_lower(get_base_vowel_and_tone(buffer.as_slice()[len - 1]).0);
        if second_last_base == 'u' && last_base == 'o' {
            let last_char = buffer.as_slice()[len - 1];
            let last_tone = get_base_vowel_and_tone(last_char).1;
            let mut fallback = *buffer;
            let fallback_o = horn_o_of(last_char, last_tone);
            fallback.replace_last(fallback_o);
            *fb = Some(fallback);
        }
    }
    modify_all_vni(buffer, '7', keep_case)
}

/// VNI `8`: `a` becomes `ă`.
fn try_apply_breve_vni(buffer: &mut CharBuffer, keep_case: bool) -> (r: bool)
    ensures
        final(buffer)@ == vni_modify_map('8', keep_case, old(buffer)@),
        r == vni_modify_applies('8', old(buffer)@),
{
    modify_all_vni(buffer, '8', keep_case)
}

/// VNI `9`: an unmarked `d` becomes `đ`.
fn try_apply_stroke_vni(buffer: &mut CharBuffer, keep_case: bool) -> (r: bool)
    ensures
        final(buffer)@ == vni_modify_map('9', keep_case, old(buffer)@),
        r == vni_modify_applies('9', old(buffer)@),
{
    modify_all_vni(buffer, '9', keep_case)
}

/// The plain letter of a modified base letter.
fn unmodified_of(base: char) -> (r: char)
    ensures
        r == unmodified(base),
{
    match base {
        'ă' | 'â' => 'a',
        'Ă' | 'Â' => 'A',
        'ê' => 'e',
        'Ê' => 'E',
        'ô' | 'ơ' => 'o',
        'Ô' | 'Ơ' => 'O',
        'ư' => 'u',
        'Ư' => 'U',
        'đ' => 'd',
        'Đ' => 'D',
        _ => base,
    }
}

/// VNI `0`: reduces every character to its plain letter; reports whether
/// one changed.
fn reset_marks_vni(buffer: &mut CharBuffer) -> (r: bool)
    ensures
        final(buffer)@ == vni_zero_map(old(buffer)@),
        r == vni_zero_changes(old(buffer)@),
{
    let n = buffer.len();
    let ghost b0 = buffer@;
    let mut changed = false;
    let mut i: usize = 0;
    while i < n
        invariant
            n == b0.len(),
            buffer@.len() == n,
            i <= n,
            forall|j: int| 0 <= j < i ==> buffer@[j] == vni_zero_map(b0)[j],
            forall|j: int| i <= j < n ==> buffer@[j] == b0[j],
            changed == exists|j: int|
                0 <= j < i && (unmodified(spec_base(#[trigger] b0[j])) != b0[j] || spec_tone(b0[j])
                    != Tone::Level),
        decreases n - i,
    {
        let ch = buffer.as_slice()[i];
        assert(ch == b0[i as int]);
        let (base, tone) = get_base_vowel_and_tone(ch);
        let new_base = unmodified_of(base);
        if new_base != ch || tone != Tone::Level {
            buffer.replace_at(i, new_base);
            changed = true;
        }
        i = i + 1;
    }
    assert(buffer@ =~= vni_zero_map(b0));
    changed
}

/// Mark `digit` typed as key `key`; see [`spec_mark_rule`].
fn apply_mark_rule(
    buffer: &mut CharBuffer,
    raw: &mut CharBuffer,
    fb: &mut Option<CharBuffer>,
    digit: char,
    key: char,
    keep_case: bool,
    spell_check: bool,
)
    ensures
        holds(
            *final(buffer),
            *final(raw),
            *final(fb),
            spec_mark_rule(work_of(*old(buffer), *old(raw), *old(fb)), digit, key, keep_case, spell_check),
        ),
{
    let (snapshot_data, len) = buffer.snapshot();
    let applied = match digit {
        '1' | '2' | '3' | '4' | '5' => try_apply_tone_vni(buffer, raw, fb, digit, key),
        '6' => try_apply_circumflex_vni(buffer, keep_case),
        '7' => try_apply_horn_vni(buffer, fb, keep_case),
        '8' => try_apply_breve_vni(buffer, keep_case),
        '9' => try_apply_stroke_vni(buffer, keep_case),
        _ => false,
    };
    if applied {
        if is_valid_vietnamese_syllable(buffer.as_slice()) {
            return;
        }
        if !spell_check {
            let mut toneless = *buffer;
            strip_any_tone_in(&mut toneless);
            if is_valid_vietnamese_syllable(toneless.as_slice()) {
                return;
            }
        }
        if '1' <= digit && digit <= '5' {
            let input_tone = vni_digit_to_tone(digit);
            if let Some(fallback) = try_smart_w_fallback(fb, input_tone) {
                *buffer = fallback;
                return;
            }
        }
        buffer.restore(&snapshot_data, len);
    }
    *fb = None;
    buffer.push(key);
}

/// One key in VNI; see [`spec_apply_vni`].
fn apply_vni_internal(
    buffer: &mut CharBuffer,
    raw: &mut CharBuffer,
    fb: &mut Option<CharBuffer>,
    next_char: char,
    spell_check: bool,
)
    ensures
        holds(
            *final(buffer),
            *final(raw),
            *final(fb),
            spec_apply_vni(work_of(*old(buffer), *old(raw), *old(fb)), next_char, spell_check),
        ),
{
    if !is_ascii_digit(next_char) {
        buffer.push(next_char);
        return;
    }
    if next_char == '0' {
        let ghost b0 = buffer@;
        let changed = reset_marks_vni(buffer);
        if !changed {
            assert(vni_zero_map(b0) =~= b0);
            buffer.push(next_char);
        }
        return;
    }
    apply_mark_rule(buffer, raw, fb, next_char, next_char, false, spell_check);
}

/// The VNI digit of a VIQR mark; see [`viqr_mark_digit`].
pub fn viqr_digit(c: char) -> (r: Option<char>)
    ensures
        r == viqr_mark_digit(c),
{
    match c {
        '\'' => Some('1'),
        '`' => Some('2'),
        '?' => Some('3'),
        '~' => Some('4'),
        '.' => Some('5'),
        '^' => Some('6'),
        '+' => Some('7'),
        '(' => Some('8'),
        '-' => Some('9'),
        _ => None,
    }
}

/// Takes the modifier of digit `d` off every character; reports whether
/// one carried it.
fn drop_modifier_all(buffer: &mut CharBuffer, d: char) -> (r: bool)
    ensures
        final(buffer)@ == drop_modifier_map(d, old(buffer)@),
        r == has_modifier(d, old(buffer)@),
{
    let n = buffer.len();
    let ghost b0 = buffer@;
    let mut found = false;
    let mut i: usize = 0;
    while i < n
        invariant
            n == b0.len(),
            buffer@.len() == n,
            i <= n,
            forall|j: int| 0 <= j < i ==> buffer@[j] == drop_modifier_map(d, b0)[j],
            forall|j: int| i <= j < n ==> buffer@[j] == b0[j],
            found == exists|j: int| 0 <= j < i && carries_modifier(d, #[trigger] b0[j]),
        decreases n - i,
    {
        let ch = buffer.as_slice()[i];
        assert(ch == b0[i as int]);
        let (base, tone) = get_base_vowel_and_tone(ch);
        let l = fast_lower(base);
        let carries = if d == '6' {
            l == 'â' || l == 'ê' || l == 'ô'
        } else if d == '7' {
            l == 'ơ' || l == 'ư'
        } else if d == '8' {
            l == 'ă'
        } else if d == '9' {
            l == 'đ'
        } else {
            false
        };
        if carries {
            buffer.replace_at(i, add_tone(unmodified_of(base), tone));
            found = true;
        }
        i = i + 1;
    }
    assert(buffer@ =~= drop_modifier_map(d, b0));
    found
}

/// One key in VIQR; see [`spec_apply_viqr`].
fn apply_viqr_internal(
    buffer: &mut CharBuffer,
    raw: &mut CharBuffer,
    fb: &mut Option<CharBuffer>,
    next_char: char,
    spell_check: bool,
)
    ensures
        holds(
            *final(buffer),
            *final(raw),
            *final(fb),
            spec_apply_viqr(work_of(*old(buffer), *old(raw), *old(fb)), next_char, spell_check),
        ),
{
    match viqr_digit(next_char) {
        Some(d) => {
            if '6' <= d && d <= '9' {
                let ghost b0 = buffer@;
                let mut probe = *buffer;
                let fresh = modify_all_vni(&mut probe, d, true);
                if !fresh {
                    let carried = drop_modifier_all(buffer, d);
                    if carried {
                        *fb = None;
                        cancel_raw_digit_char(raw, next_char);
                        buffer.push(next_char);
                        return;
                    }
                    assert(drop_modifier_map(d, b0) =~= b0);
                }
            }
            apply_mark_rule(buffer, raw, fb, d, next_char, true, spell_check);
        },
        None => {
            buffer.push(next_char);
        },
    }
}

/// Applies key `next_char` in `method`: keys of the other method are typed
/// as they are; see [`spec_keystroke`].
pub fn apply_keystroke_rule(
    method: InputMethod,
    spell_check: bool,
    buffer: &mut CharBuffer,
    raw: &mut CharBuffer,
    fb: &mut Option<CharBuffer>,
    next_char: char,
)
    ensures
        holds(
            *final(buffer),
            *final(raw),
            *final(fb),
            spec_keystroke(method, spell_check, work_of(*old(buffer), *old(raw), *old(fb)), next_char),
        ),
{
    proof {
        reveal(spec_keystroke);
    }
    let is_digit = is_ascii_digit(next_char);
    let is_telex_modifier = match ascii_lower(next_char) {
        's' | 'f' | 'r' | 'x' | 'j' | 'a' | 'e' | 'o' | 'w' | 'd' | 'z' => true,
        _ => false,
    };
    if (method == InputMethod::Telex && is_digit) || (method == InputMethod::Vni
        && is_telex_modifier) {
        buffer.push(next_char);
        return;
    }
    match method {
        InputMethod::Telex => apply_telex_internal(buffer, raw, fb, next_char),
        InputMethod::Vni => apply_vni_internal(buffer, raw, fb, next_char, spell_check),
        InputMethod::Viqr => apply_viqr_internal(buffer, raw, fb, next_char, spell_check),
    }
}

/// Recomposes `buffer` from the raw keys in `raw`; see [`spec_rebuild`].
pub fn rebuild_buffer(
    method: InputMethod,
    spell_check: bool,
    buffer: &mut CharBuffer,
    raw: &mut CharBuffer,
    fb: &mut Option<CharBuffer>,
)
    ensures
        holds(
            *final(buffer),
            *final(raw),
            *final(fb),
            spec_rebuild(method, spell_check, work_of(*old(buffer), *old(raw), *old(fb))),
        ),
{
    buffer.clear();
    let (raw_chars, len) = raw.snapshot();
    let ghost keys = raw@;
    let ghost init = Work { buf: Seq::empty(), raw: Seq::empty(), fb: opt_view(*fb) };
    raw.clear();
    let mut fallback_to_raw = false;
    let mut k: usize = 0;
    while k < len && !fallback_to_raw
        invariant
            len == keys.len(),
            len <= 16,
            keys == raw_chars@.take(len as int),
            k <= len,
            !fallback_to_raw ==> spec_replay(method, spell_check, keys, 0, init) == spec_replay(
                method,
                spell_check,
                keys,
                k as int,
                work_of(*buffer, *raw, *fb),
            ),
            fallback_to_raw ==> spec_replay(method, spell_check, keys, 0, init) == (
                work_of(*buffer, *raw, *fb),
                true,
            ),
        decreases len - k,
    {
        let ch = raw_chars[k];
        raw.push(ch);
        apply_keystroke_rule(method, spell_check, buffer, raw, fb, ch);
        apply_dynamic_tone_shifting(buffer);
        if spell_check && !is_valid_vietnamese_syllable(buffer.as_slice()) {
            fallback_to_raw = true;
        }
        k = k + 1;
    }
    if fallback_to_raw {
        buffer.clear();
        raw.clear();
        let mut i: usize = 0;
        while i < len
            invariant
                len == keys.len(),
                len <= 16,
                keys == raw_chars@.take(len as int),
                i <= len,
                buffer@ == keys.take(i as int),
                raw@ == keys.take(i as int),
            decreases len - i,
        {
            let ch = raw_chars[i];
            buffer.push(ch);
            raw.push(ch);
            assert(keys.take(i as int + 1) =~= keys.take(i as int).push(ch));
            i = i + 1;
        }
        assert(keys.take(len as int) =~= keys);
    }
}

} // verus!
