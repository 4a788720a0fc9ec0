//! Spell check: whether a run of characters is one Vietnamese syllable.

use vstd::prelude::*;
use crate::letters::spec_lower;
use crate::telex::{
    fast_lower, get_base_vowel_and_tone, is_vowel, spec_base, spec_is_vowel, spec_tone, Tone,
};

verus! {

/// Three-letter initial consonant (`ngh`).
pub open spec fn is_initial3(a: char, b: char, c: char) -> bool {
    a == 'n' && b == 'g' && c == 'h'
}

/// Two-letter initial consonants.
pub open spec fn is_initial2(a: char, b: char) -> bool {
    matches!(
        (a, b),
        ('c', 'h') | ('g', 'h') | ('g', 'i') | ('k', 'h') | ('n', 'g') | ('n', 'h') | ('p', 'h') | (
        'q',
        'u',
    ) | ('t', 'h') | ('t', 'r')
    )
}

/// One-letter initial consonants.
pub open spec fn is_initial1(c: char) -> bool {
    matches!(
        c,
        'b' | 'c' | 'd' | 'đ' | 'g' | 'h' | 'k' | 'l' | 'm' | 'n' | 'p' | 'q' | 'r' | 's' | 't'
            | 'v' | 'x'
    )
}

/// Two-letter final consonants.
pub open spec fn is_coda2(a: char, b: char) -> bool {
    matches!((a, b), ('c', 'h') | ('n', 'g') | ('n', 'h'))
}

/// One-letter finals (consonants and the glides `o u i y`).
pub open spec fn is_coda1(c: char) -> bool {
    matches!(c, 'c' | 'm' | 'n' | 'p' | 't' | 'o' | 'u' | 'i' | 'y')
}

/// Position after the longest initial consonant of `s` at `cur`.
pub open spec fn spec_consume_initial(s: Seq<char>, cur: int) -> int {
    let rem = s.len() - cur;
    if rem >= 3 && is_initial3(s[cur], s[cur + 1], s[cur + 2]) {
        cur + 3
    } else if rem >= 2 && is_initial2(s[cur], s[cur + 1]) {
        cur + 2
    } else if rem >= 1 && is_initial1(s[cur]) {
        cur + 1
    } else {
        cur
    }
}

/// Position after the longest final consonant of `s` at `cur`.
pub open spec fn spec_consume_coda(s: Seq<char>, cur: int) -> int {
    let rem = s.len() - cur;
    if rem >= 2 && is_coda2(s[cur], s[cur + 1]) {
        cur + 2
    } else if rem >= 1 && is_coda1(s[cur]) {
        cur + 1
    } else {
        cur
    }
}

/// Number of consecutive vowels of `chars` from `cur`, not looking at or
/// past `len`.
pub open spec fn vowel_run(chars: Seq<char>, cur: int, len: int) -> int
    decreases len - cur,
{
    if cur < len && spec_is_vowel(chars[cur]) {
        1 + vowel_run(chars, cur + 1, len)
    } else {
        0
    }
}

/// Lowercase base letter of `c`.
pub open spec fn lower_base(c: char) -> char {
    spec_lower(spec_base(c))
}

/// Whether the vowel cluster of `n` vowels at `v` breaks a rule: more than
/// three vowels, `…oo` after another vowel, `eơ`/`eư`, or a toned `ươ` that
/// ends the syllable.
pub open spec fn bad_vowel_cluster(chars: Seq<char>, v: int, n: int, ends_word: bool) -> bool {
    if n > 3 {
        true
    } else if n == 3 {
        lower_base(chars[v + 1]) == 'o' && lower_base(chars[v + 2]) == 'o' && lower_base(chars[v])
            != 'o'
    } else if n == 2 {
        let v1 = lower_base(chars[v]);
        let v2 = lower_base(chars[v + 1]);
        (v1 == 'e' && (v2 == 'ơ' || v2 == 'ư')) || (v1 == 'ư' && v2 == 'ơ' && ends_word && (
        spec_tone(chars[v]) != Tone::Level || spec_tone(chars[v + 1]) != Tone::Level))
    } else {
        false
    }
}

/// `chars` (of which at most the first sixteen are looked at) is one
/// syllable: an optional initial consonant, a valid vowel cluster and an
/// optional final, with nothing left over.
pub open spec fn spec_is_valid_syllable(chars: Seq<char>) -> bool {
    if chars.len() == 0 {
        true
    } else {
        let len = if chars.len() < 16 { chars.len() as int } else { 16 };
        let lowered = Seq::new(len as nat, |i: int| spec_lower(chars[i]));
        let c0 = spec_consume_initial(lowered, 0);
        let n = vowel_run(chars, c0, len);
        !bad_vowel_cluster(chars, c0, n, c0 + n == len) && spec_consume_coda(lowered, c0 + n)
            == chars.len()
    }
}

pub(crate) fn consume_initial(lower_slice: &[char], cursor: usize) -> (r: usize)
    requires
        cursor <= lower_slice@.len(),
    ensures
        r == spec_consume_initial(lower_slice@, cursor as int),
{
    let s = lower_slice;
    let remaining = s.len() - cursor;
    if remaining >= 3 && s[cursor] == 'n' && s[cursor + 1] == 'g' && s[cursor + 2] == 'h' {
        return cursor + 3;
    }
    if remaining >= 2 {
        let two = match (s[cursor], s[cursor + 1]) {
            ('c', 'h') | ('g', 'h') | ('g', 'i') | ('k', 'h') | ('n', 'g') | ('n', 'h') | (
                'p',
                'h',
            ) | ('q', 'u') | ('t', 'h') | ('t', 'r') => true,
            _ => false,
        };
        if two {
            return cursor + 2;
        }
    }
    if remaining >= 1 {
        let one = match s[cursor] {
            'b' | 'c' | 'd' | 'đ' | 'g' | 'h' | 'k' | 'l' | 'm' | 'n' | 'p' | 'q' | 'r' | 's'
            | 't' | 'v' | 'x' => true,
            _ => false,
        };
        if one {
            return cursor + 1;
        }
    }
    cursor
}

pub(crate) fn consume_coda(lower_slice: &[char], cursor: usize) -> (r: usize)
    requires
        cursor <= lower_slice@.len(),
    ensures
        r == spec_consume_coda(lower_slice@, cursor as int),
{
    let s = lower_slice;
    let remaining = s.len() - cursor;
    if remaining >= 2 {
        let two = match (s[cursor], s[cursor + 1]) {
            ('c', 'h') | ('n', 'g') | ('n', 'h') => true,
            _ => false,
        };
        if two {
            return cursor + 2;
        }
    }
    if remaining >= 1 {
        let one = match s[cursor] {
            'c' | 'm' | 'n' | 'p' | 't' | 'o' | 'u' | 'i' | 'y' => true,
            _ => false,
        };
        if one {
            return cursor + 1;
        }
    }
    cursor
}

proof fn lemma_vowel_count_bound(chars: Seq<char>, cur: int, len: int)
    requires
        cur <= len,
    ensures
        0 <= vowel_run(chars, cur, len) <= len - cur,
        forall|k: int|
            cur <= k < cur + vowel_run(chars, cur, len) ==> spec_is_vowel(#[trigger] chars[k]),
    decreases len - cur,
{
    if cur < len && spec_is_vowel(chars[cur]) {
        lemma_vowel_count_bound(chars, cur + 1, len);
    }
}

/// Whether `chars` is a single Vietnamese syllable (case-insensitive; only
/// the first sixteen characters are matched, so longer input is rejected).
pub fn is_valid_vietnamese_syllable(chars: &[char]) -> (r: bool)
    ensures
        r == spec_is_valid_syllable(chars@),
{
    if chars.len() == 0 {
        return true;
    }
    let len: usize = if chars.len() < 16 { chars.len() } else { 16 };
    let ghost lowered = Seq::new(len as nat, |i: int| spec_lower(chars@[i]));
    let mut lower_chars: [char; 16] = ['\x00';16];
    let mut i: usize = 0;
    while i < len
        invariant
            len <= 16,
            len <= chars@.len(),
            i <= len,
            lower_chars@.len() == 16,
            forall|j: int| 0 <= j < i ==> lower_chars@[j] == spec_lower(chars@[j]),
        decreases len - i,
    {
        lower_chars[i] = fast_lower(chars[i]);
        i = i + 1;
    }
    let lower_slice = &lower_chars[0..len];
    assert(lower_slice@ =~= lowered);
    let mut cursor = consume_initial(lower_slice, 0);
    let vowel_start = cursor;
    let mut vowel_count: usize = 0;
    proof {
        lemma_vowel_count_bound(chars@, vowel_start as int, len as int);
    }
    while cursor < len && is_vowel(chars[cursor])
        invariant
            vowel_start <= cursor <= len,
            len <= chars@.len(),
            vowel_count == cursor - vowel_start,
            vowel_run(chars@, vowel_start as int, len as int) == vowel_count + vowel_run(
                chars@,
                cursor as int,
                len as int,
            ),
        decreases len - cursor,
    {
        cursor = cursor + 1;
        vowel_count = vowel_count + 1;
    }
    if vowel_count > 3 {
        return false;
    }
    if vowel_count >= 3 {
        let v1_l = fast_lower(get_base_vowel_and_tone(chars[vowel_start]).0);
        let v2_l = fast_lower(get_base_vowel_and_tone(chars[vowel_start + 1]).0);
        let v3_l = fast_lower(get_base_vowel_and_tone(chars[vowel_start + 2]).0);
        if v2_l == 'o' && v3_l == 'o' && v1_l != 'o' {
            return false;
        }
    } else if vowel_count == 2 {
        let v1_l = fast_lower(get_base_vowel_and_tone(chars[vowel_start]).0);
        let v2_l = fast_lower(get_base_vowel_and_tone(chars[vowel_start + 1]).0);
        if v1_l == 'e' && (v2_l == 'ơ' || v2_l == 'ư') {
            return false;
        }
        if v1_l == 'ư' && v2_l == 'ơ' && cursor == len {
            let v1_has_tone = get_base_vowel_and_tone(chars[vowel_start]).1 != Tone::Level;
            let v2_has_tone = get_base_vowel_and_tone(chars[vowel_start + 1]).1 != Tone::Level;
            if v1_has_tone || v2_has_tone {
                return false;
            }
        }
    }
    cursor = consume_coda(lower_slice, cursor);
    cursor == chars.len()
}

/// A character and its lowercase agree on what the syllable check reads of
/// them: vowel or not, tone, lowercase and, for a vowel, lowercase base
/// letter; given that lowercasing its lowercase changes nothing.
proof fn lemma_lower_keeps_letter(c: char)
    requires
        spec_lower(spec_lower(c)) == spec_lower(c),
    ensures
        spec_is_vowel(spec_lower(c)) == spec_is_vowel(c),
        spec_is_vowel(c) ==> lower_base(spec_lower(c)) == lower_base(c),
        spec_tone(spec_lower(c)) == spec_tone(c),
        spec_lower(spec_lower(c)) == spec_lower(c),
{
}

proof fn lemma_vowel_run_lowered(chars: Seq<char>, low: Seq<char>, cur: int, len: int)
    requires
        low.len() == chars.len(),
        0 <= cur,
        len <= chars.len(),
        forall|i: int| 0 <= i < chars.len() ==> spec_is_vowel(#[trigger] low[i]) == spec_is_vowel(chars[i]),
    ensures
        vowel_run(low, cur, len) == vowel_run(chars, cur, len),
    decreases len - cur,
{
    if cur < len {
        assert(spec_is_vowel(low[cur]) == spec_is_vowel(chars[cur]));
        lemma_vowel_run_lowered(chars, low, cur + 1, len);
    }
}

/// The syllable check ignores letter case: lowercasing every character
/// keeps the verdict. Stated for characters whose lowercase is its own
/// lowercase, as it is for ASCII and the Vietnamese letters
/// (`letters::lemma_lower_idempotent`) and, by Unicode's case tables, for every
/// character.
pub proof fn lemma_syllable_ignores_case(chars: Seq<char>)
    requires
        forall|i: int|
            0 <= i < chars.len() ==> spec_lower(spec_lower(#[trigger] chars[i])) == spec_lower(
                chars[i],
            ),
    ensures
        spec_is_valid_syllable(Seq::new(chars.len(), |i: int| spec_lower(chars[i])))
            == spec_is_valid_syllable(chars),
{
    let low = Seq::new(chars.len(), |i: int| spec_lower(chars[i]));
    assert forall|i: int| 0 <= i < chars.len() implies {
        &&& spec_is_vowel(#[trigger] low[i]) == spec_is_vowel(chars[i])
        &&& spec_is_vowel(chars[i]) ==> lower_base(low[i]) == lower_base(chars[i])
        &&& spec_tone(low[i]) == spec_tone(chars[i])
        &&& spec_lower(low[i]) == spec_lower(chars[i])
    } by {
        lemma_lower_keeps_letter(chars[i]);
    }
    if chars.len() > 0 {
        let len = if chars.len() < 16 { chars.len() as int } else { 16 };
        let l1 = Seq::new(len as nat, |i: int| spec_lower(chars[i]));
        let l2 = Seq::new(len as nat, |i: int| spec_lower(low[i]));
        assert(l1 =~= l2);
        let c0 = spec_consume_initial(l1, 0);
        lemma_vowel_run_lowered(chars, low, c0, len);
        let n = vowel_run(chars, c0, len);
        lemma_vowel_count_bound(chars, c0, len);
        if n <= 3 && n >= 2 {
            assert(spec_is_vowel(chars[c0]) && spec_is_vowel(chars[c0 + 1]));
            assert(lower_base(low[c0]) == lower_base(chars[c0]));
            assert(lower_base(low[c0 + 1]) == lower_base(chars[c0 + 1]));
            assert(spec_tone(low[c0]) == spec_tone(chars[c0]));
            assert(spec_tone(low[c0 + 1]) == spec_tone(chars[c0 + 1]));
            if n == 3 {
                assert(spec_is_vowel(chars[c0 + 2]));
                assert(lower_base(low[c0 + 2]) == lower_base(chars[c0 + 2]));
            }
        }
    }
}

/// The empty run counts as valid, and a run of more than sixteen
/// characters never does.
pub proof fn lemma_syllable_length(chars: Seq<char>)
    ensures
        chars.len() == 0 ==> spec_is_valid_syllable(chars),
        chars.len() > 16 ==> !spec_is_valid_syllable(chars),
{
    if chars.len() > 16 {
        let len = 16int;
        let lowered = Seq::new(len as nat, |i: int| spec_lower(chars[i]));
        let c0 = spec_consume_initial(lowered, 0);
        lemma_vowel_count_bound(chars, c0, len);
    }
}

} // verus!
