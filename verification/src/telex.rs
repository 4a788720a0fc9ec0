//! Character rules of Telex/VNI composition: tones, vowel modifiers and
//! where a syllable's tone mark goes.

use vstd::prelude::*;
use crate::letters::{
    is_ascii_char, is_upper, is_vn_lower, lower, spec_ascii_lower, spec_is_upper, spec_lower,
    spec_upper, unicode_lowercase, upper,
};

verus! {

/// The five Vietnamese tone marks, or none.
#[derive(Debug, Clone, Copy, PartialEq, Eq, Structural)]
pub enum Tone {
    /// Level tone: no mark.
    Level,
    Acute,
    Grave,
    Hook,
    Tilde,
    Underdot,
}

/// The tone that a Telex tone key selects, whatever its case.
pub open spec fn spec_tone_of_key(c: char) -> Option<Tone> {
    match c {
        's' | 'S' => Some(Tone::Acute),
        'f' | 'F' => Some(Tone::Grave),
        'r' | 'R' => Some(Tone::Hook),
        'x' | 'X' => Some(Tone::Tilde),
        'j' | 'J' => Some(Tone::Underdot),
        _ => None,
    }
}

impl Tone {
    /// The tone selected by Telex key `c` (`s f r x j`, either case).
    pub fn from_char(c: char) -> (r: Option<Tone>)
        ensures
            r == spec_tone_of_key(c),
    {
        match c {
            's' | 'S' => Some(Tone::Acute),
            'f' | 'F' => Some(Tone::Grave),
            'r' | 'R' => Some(Tone::Hook),
            'x' | 'X' => Some(Tone::Tilde),
            'j' | 'J' => Some(Tone::Underdot),
            _ => None,
        }
    }
}

/// A lowercase vowel, plain or carrying a tone mark.
pub open spec fn is_lower_vowel(l: char) -> bool {
    matches!(
        l,
        'a' | 'ă' | 'â' | 'e' | 'ê' | 'i' | 'o' | 'ô' | 'ơ' | 'u' | 'ư' | 'y'
        | 'á' | 'à' | 'ả' | 'ã' | 'ạ' | 'ắ' | 'ằ' | 'ẳ' | 'ẵ' | 'ặ' | 'ấ' | 'ầ'
        | 'ẩ' | 'ẫ' | 'ậ' | 'é' | 'è' | 'ẻ' | 'ẽ' | 'ẹ' | 'ế' | 'ề' | 'ể' | 'ễ'
        | 'ệ' | 'í' | 'ì' | 'ỉ' | 'ĩ' | 'ị' | 'ó' | 'ò' | 'ỏ' | 'õ' | 'ọ' | 'ố'
        | 'ồ' | 'ổ' | 'ỗ' | 'ộ' | 'ớ' | 'ờ' | 'ở' | 'ỡ' | 'ợ' | 'ú' | 'ù' | 'ủ'
        | 'ũ' | 'ụ' | 'ứ' | 'ừ' | 'ử' | 'ữ' | 'ự' | 'ý' | 'ỳ' | 'ỷ' | 'ỹ' | 'ỵ'
    )
}

/// The toned form of lowercase vowel `l`; anything else is kept.
pub open spec fn toned(l: char, t: Tone) -> char {
    match (l, t) {
        ('a', Tone::Acute) => 'á',
        ('a', Tone::Grave) => 'à',
        ('a', Tone::Hook) => 'ả',
        ('a', Tone::Tilde) => 'ã',
        ('a', Tone::Underdot) => 'ạ',
        ('ă', Tone::Acute) => 'ắ',
        ('ă', Tone::Grave) => 'ằ',
        ('ă', Tone::Hook) => 'ẳ',
        ('ă', Tone::Tilde) => 'ẵ',
        ('ă', Tone::Underdot) => 'ặ',
        ('â', Tone::Acute) => 'ấ',
        ('â', Tone::Grave) => 'ầ',
        ('â', Tone::Hook) => 'ẩ',
        ('â', Tone::Tilde) => 'ẫ',
        ('â', Tone::Underdot) => 'ậ',
        ('e', Tone::Acute) => 'é',
        ('e', Tone::Grave) => 'è',
        ('e', Tone::Hook) => 'ẻ',
        ('e', Tone::Tilde) => 'ẽ',
        ('e', Tone::Underdot) => 'ẹ',
        ('ê', Tone::Acute) => 'ế',
        ('ê', Tone::Grave) => 'ề',
        ('ê', Tone::Hook) => 'ể',
        ('ê', Tone::Tilde) => 'ễ',
        ('ê', Tone::Underdot) => 'ệ',
        ('i', Tone::Acute) => 'í',
        ('i', Tone::Grave) => 'ì',
        ('i', Tone::Hook) => 'ỉ',
        ('i', Tone::Tilde) => 'ĩ',
        ('i', Tone::Underdot) => 'ị',
        ('o', Tone::Acute) => 'ó',
        ('o', Tone::Grave) => 'ò',
        ('o', Tone::Hook) => 'ỏ',
        ('o', Tone::Tilde) => 'õ',
        ('o', Tone::Underdot) => 'ọ',
        ('ô', Tone::Acute) => 'ố',
        ('ô', Tone::Grave) => 'ồ',
        ('ô', Tone::Hook) => 'ổ',
        ('ô', Tone::Tilde) => 'ỗ',
        ('ô', Tone::Underdot) => 'ộ',
        ('ơ', Tone::Acute) => 'ớ',
        ('ơ', Tone::Grave) => 'ờ',
        ('ơ', Tone::Hook) => 'ở',
        ('ơ', Tone::Tilde) => 'ỡ',
        ('ơ', Tone::Underdot) => 'ợ',
        ('u', Tone::Acute) => 'ú',
        ('u', Tone::Grave) => 'ù',
        ('u', Tone::Hook) => 'ủ',
        ('u', Tone::Tilde) => 'ũ',
        ('u', Tone::Underdot) => 'ụ',
        ('ư', Tone::Acute) => 'ứ',
        ('ư', Tone::Grave) => 'ừ',
        ('ư', Tone::Hook) => 'ử',
        ('ư', Tone::Tilde) => 'ữ',
        ('ư', Tone::Underdot) => 'ự',
        ('y', Tone::Acute) => 'ý',
        ('y', Tone::Grave) => 'ỳ',
        ('y', Tone::Hook) => 'ỷ',
        ('y', Tone::Tilde) => 'ỹ',
        ('y', Tone::Underdot) => 'ỵ',
        _ => l,
    }
}

/// Splits a lowercase toned vowel into its base and tone; anything else is
/// its own base with no tone.
pub open spec fn untone(l: char) -> (char, Tone) {
    match l {
        'á' => ('a', Tone::Acute),
        'à' => ('a', Tone::Grave),
        'ả' => ('a', Tone::Hook),
        'ã' => ('a', Tone::Tilde),
        'ạ' => ('a', Tone::Underdot),
        'ắ' => ('ă', Tone::Acute),
        'ằ' => ('ă', Tone::Grave),
        'ẳ' => ('ă', Tone::Hook),
        'ẵ' => ('ă', Tone::Tilde),
        'ặ' => ('ă', Tone::Underdot),
        'ấ' => ('â', Tone::Acute),
        'ầ' => ('â', Tone::Grave),
        'ẩ' => ('â', Tone::Hook),
        'ẫ' => ('â', Tone::Tilde),
        'ậ' => ('â', Tone::Underdot),
        'é' => ('e', Tone::Acute),
        'è' => ('e', Tone::Grave),
        'ẻ' => ('e', Tone::Hook),
        'ẽ' => ('e', Tone::Tilde),
        'ẹ' => ('e', Tone::Underdot),
        'ế' => ('ê', Tone::Acute),
        'ề' => ('ê', Tone::Grave),
        'ể' => ('ê', Tone::Hook),
        'ễ' => ('ê', Tone::Tilde),
        'ệ' => ('ê', Tone::Underdot),
        'í' => ('i', Tone::Acute),
        'ì' => ('i', Tone::Grave),
        'ỉ' => ('i', Tone::Hook),
        'ĩ' => ('i', Tone::Tilde),
        'ị' => ('i', Tone::Underdot),
        'ó' => ('o', Tone::Acute),
        'ò' => ('o', Tone::Grave),
        'ỏ' => ('o', Tone::Hook),
        'õ' => ('o', Tone::Tilde),
        'ọ' => ('o', Tone::Underdot),
        'ố' => ('ô', Tone::Acute),
        'ồ' => ('ô', Tone::Grave),
        'ổ' => ('ô', Tone::Hook),
        'ỗ' => ('ô', Tone::Tilde),
        'ộ' => ('ô', Tone::Underdot),
        'ớ' => ('ơ', Tone::Acute),
        'ờ' => ('ơ', Tone::Grave),
        'ở' => ('ơ', Tone::Hook),
        'ỡ' => ('ơ', Tone::Tilde),
        'ợ' => ('ơ', Tone::Underdot),
        'ú' => ('u', Tone::Acute),
        'ù' => ('u', Tone::Grave),
        'ủ' => ('u', Tone::Hook),
        'ũ' => ('u', Tone::Tilde),
        'ụ' => ('u', Tone::Underdot),
        'ứ' => ('ư', Tone::Acute),
        'ừ' => ('ư', Tone::Grave),
        'ử' => ('ư', Tone::Hook),
        'ữ' => ('ư', Tone::Tilde),
        'ự' => ('ư', Tone::Underdot),
        'ý' => ('y', Tone::Acute),
        'ỳ' => ('y', Tone::Grave),
        'ỷ' => ('y', Tone::Hook),
        'ỹ' => ('y', Tone::Tilde),
        'ỵ' => ('y', Tone::Underdot),
        _ => (l, Tone::Level),
    }
}

/// `r` in the case of `original`.
pub open spec fn spec_restore_case(original: char, r: char) -> char {
    if spec_is_upper(original) {
        spec_upper(r)
    } else {
        r
    }
}

/// Whether `c` is a Vietnamese vowel, in either case, with or without tone.
pub open spec fn spec_is_vowel(c: char) -> bool {
    is_lower_vowel(spec_lower(c))
}

/// Base letter of `c` (in the case of `c`) and the tone it carries.
pub open spec fn spec_base_tone(c: char) -> (char, Tone) {
    let (b, t) = untone(spec_lower(c));
    (spec_restore_case(c, b), t)
}

pub open spec fn spec_base(c: char) -> char {
    spec_base_tone(c).0
}

pub open spec fn spec_tone(c: char) -> Tone {
    spec_base_tone(c).1
}

/// `base` with tone `t` put on it, in the case of `base`.
pub open spec fn spec_add_tone(base: char, t: Tone) -> char {
    spec_restore_case(base, toned(spec_lower(base), t))
}

/// Modifier key `m` (lowercase) on lowercase base `b`: the new base, if `m`
/// upgrades or overrides it.
pub open spec fn modified_base(b: char, m: char) -> Option<char> {
    match (b, m) {
        ('a', 'a') => Some('â'),
        ('a', 'w') => Some('ă'),
        ('â', 'w') => Some('ă'),
        ('ă', 'a') => Some('â'),
        ('e', 'e') => Some('ê'),
        ('o', 'o') => Some('ô'),
        ('o', 'w') | ('o', '[') => Some('ơ'),
        ('ô', 'w') | ('ô', '[') => Some('ơ'),
        ('ơ', 'o') => Some('ô'),
        ('u', 'w') | ('u', '[') => Some('ư'),
        _ => None,
    }
}

/// Modifier key `m` (lowercase) pressed again on the lowercase base `b` that
/// it creates: the plain base.
pub open spec fn unmodified_base(b: char, m: char) -> Option<char> {
    match (b, m) {
        ('ă', 'w') => Some('a'),
        ('â', 'a') => Some('a'),
        ('ê', 'e') => Some('e'),
        ('ô', 'o') => Some('o'),
        ('ơ', 'w') | ('ơ', '[') => Some('o'),
        ('ư', 'w') | ('ư', '[') => Some('u'),
        _ => None,
    }
}

pub open spec fn spec_apply_vowel_modifier(c: char, modifier: char) -> Option<char> {
    let (base, tone) = spec_base_tone(c);
    match modified_base(spec_lower(base), spec_lower(modifier)) {
        Some(nb) => Some(spec_add_tone(spec_restore_case(c, nb), tone)),
        None => None,
    }
}

pub open spec fn spec_remove_vowel_modifier(c: char, modifier: char) -> Option<char> {
    let (base, tone) = spec_base_tone(c);
    match unmodified_base(spec_lower(base), spec_lower(modifier)) {
        Some(nb) => Some(spec_add_tone(spec_restore_case(c, nb), tone)),
        None => None,
    }
}

/// Lowercase of `c`: ASCII by the ASCII rule, else the first character of
/// its Unicode lowercase mapping.
pub fn fast_lower(c: char) -> (r: char)
    ensures
        r == spec_lower(c),
        is_ascii_char(c) ==> r == spec_ascii_lower(c),
        !is_ascii_char(c) ==> r == unicode_lowercase(c),
{
    lower(c)
}

/// `result` in the case of `original`.
fn restore_case(original: char, result: char) -> (r: char)
    ensures
        r == spec_restore_case(original, result),
{
    if is_upper(original) {
        upper(result)
    } else {
        result
    }
}

/// Whether `c` is a Vietnamese vowel (with or without tone or modifier), in
/// either case.
pub fn is_vowel(c: char) -> (r: bool)
    ensures
        r == spec_is_vowel(c),
{
    let l = fast_lower(c);
    matches!(
        l,
        'a' | 'ă' | 'â' | 'e' | 'ê' | 'i' | 'o' | 'ô' | 'ơ' | 'u' | 'ư' | 'y'
        | 'á' | 'à' | 'ả' | 'ã' | 'ạ' | 'ắ' | 'ằ' | 'ẳ' | 'ẵ' | 'ặ' | 'ấ' | 'ầ'
        | 'ẩ' | 'ẫ' | 'ậ' | 'é' | 'è' | 'ẻ' | 'ẽ' | 'ẹ' | 'ế' | 'ề' | 'ể' | 'ễ'
        | 'ệ' | 'í' | 'ì' | 'ỉ' | 'ĩ' | 'ị' | 'ó' | 'ò' | 'ỏ' | 'õ' | 'ọ' | 'ố'
        | 'ồ' | 'ổ' | 'ỗ' | 'ộ' | 'ớ' | 'ờ' | 'ở' | 'ỡ' | 'ợ' | 'ú' | 'ù' | 'ủ'
        | 'ũ' | 'ụ' | 'ứ' | 'ừ' | 'ử' | 'ữ' | 'ự' | 'ý' | 'ỳ' | 'ỷ' | 'ỹ' | 'ỵ'
    )
}

/// Base letter of `c` (in the case of `c`) and its tone.
pub fn get_base_vowel_and_tone(c: char) -> (r: (char, Tone))
    ensures
        r == spec_base_tone(c),
{
    let lower = fast_lower(c);
    let (base, tone) = match lower {
        'á' => ('a', Tone::Acute),
        'à' => ('a', Tone::Grave),
        'ả' => ('a', Tone::Hook),
        'ã' => ('a', Tone::Tilde),
        'ạ' => ('a', Tone::Underdot),
        'ắ' => ('ă', Tone::Acute),
        'ằ' => ('ă', Tone::Grave),
        'ẳ' => ('ă', Tone::Hook),
        'ẵ' => ('ă', Tone::Tilde),
        'ặ' => ('ă', Tone::Underdot),
        'ấ' => ('â', Tone::Acute),
        'ầ' => ('â', Tone::Grave),
        'ẩ' => ('â', Tone::Hook),
        'ẫ' => ('â', Tone::Tilde),
        'ậ' => ('â', Tone::Underdot),
        'é' => ('e', Tone::Acute),
        'è' => ('e', Tone::Grave),
        'ẻ' => ('e', Tone::Hook),
        'ẽ' => ('e', Tone::Tilde),
        'ẹ' => ('e', Tone::Underdot),
        'ế' => ('ê', Tone::Acute),
        'ề' => ('ê', Tone::Grave),
        'ể' => ('ê', Tone::Hook),
        'ễ' => ('ê', Tone::Tilde),
        'ệ' => ('ê', Tone::Underdot),
        'í' => ('i', Tone::Acute),
        'ì' => ('i', Tone::Grave),
        'ỉ' => ('i', Tone::Hook),
        'ĩ' => ('i', Tone::Tilde),
        'ị' => ('i', Tone::Underdot),
        'ó' => ('o', Tone::Acute),
        'ò' => ('o', Tone::Grave),
        'ỏ' => ('o', Tone::Hook),
        'õ' => ('o', Tone::Tilde),
        'ọ' => ('o', Tone::Underdot),
        'ố' => ('ô', Tone::Acute),
        'ồ' => ('ô', Tone::Grave),
        'ổ' => ('ô', Tone::Hook),
        'ỗ' => ('ô', Tone::Tilde),
        'ộ' => ('ô', Tone::Underdot),
        'ớ' => ('ơ', Tone::Acute),
        'ờ' => ('ơ', Tone::Grave),
        'ở' => ('ơ', Tone::Hook),
        'ỡ' => ('ơ', Tone::Tilde),
        'ợ' => ('ơ', Tone::Underdot),
        'ú' => ('u', Tone::Acute),
        'ù' => ('u', Tone::Grave),
        'ủ' => ('u', Tone::Hook),
        'ũ' => ('u', Tone::Tilde),
        'ụ' => ('u', Tone::Underdot),
        'ứ' => ('ư', Tone::Acute),
        'ừ' => ('ư', Tone::Grave),
        'ử' => ('ư', Tone::Hook),
        'ữ' => ('ư', Tone::Tilde),
        'ự' => ('ư', Tone::Underdot),
        'ý' => ('y', Tone::Acute),
        'ỳ' => ('y', Tone::Grave),
        'ỷ' => ('y', Tone::Hook),
        'ỹ' => ('y', Tone::Tilde),
        'ỵ' => ('y', Tone::Underdot),
        _ => (lower, Tone::Level),
    };
    (restore_case(c, base), tone)
}

/// `base` carrying tone `tone`, in the case of `base`.
pub fn add_tone(base: char, tone: Tone) -> (r: char)
    ensures
        r == spec_add_tone(base, tone),
{
    let lower = fast_lower(base);
    let res = match (lower, tone) {
        ('a', Tone::Acute) => 'á',
        ('a', Tone::Grave) => 'à',
        ('a', Tone::Hook) => 'ả',
        ('a', Tone::Tilde) => 'ã',
        ('a', Tone::Underdot) => 'ạ',
        ('ă', Tone::Acute) => 'ắ',
        ('ă', Tone::Grave) => 'ằ',
        ('ă', Tone::Hook) => 'ẳ',
        ('ă', Tone::Tilde) => 'ẵ',
        ('ă', Tone::Underdot) => 'ặ',
        ('â', Tone::Acute) => 'ấ',
        ('â', Tone::Grave) => 'ầ',
        ('â', Tone::Hook) => 'ẩ',
        ('â', Tone::Tilde) => 'ẫ',
        ('â', Tone::Underdot) => 'ậ',
        ('e', Tone::Acute) => 'é',
        ('e', Tone::Grave) => 'è',
        ('e', Tone::Hook) => 'ẻ',
        ('e', Tone::Tilde) => 'ẽ',
        ('e', Tone::Underdot) => 'ẹ',
        ('ê', Tone::Acute) => 'ế',
        ('ê', Tone::Grave) => 'ề',
        ('ê', Tone::Hook) => 'ể',
        ('ê', Tone::Tilde) => 'ễ',
        ('ê', Tone::Underdot) => 'ệ',
        ('i', Tone::Acute) => 'í',
        ('i', Tone::Grave) => 'ì',
        ('i', Tone::Hook) => 'ỉ',
        ('i', Tone::Tilde) => 'ĩ',
        ('i', Tone::Underdot) => 'ị',
        ('o', Tone::Acute) => 'ó',
        ('o', Tone::Grave) => 'ò',
        ('o', Tone::Hook) => 'ỏ',
        ('o', Tone::Tilde) => 'õ',
        ('o', Tone::Underdot) => 'ọ',
        ('ô', Tone::Acute) => 'ố',
        ('ô', Tone::Grave) => 'ồ',
        ('ô', Tone::Hook) => 'ổ',
        ('ô', Tone::Tilde) => 'ỗ',
        ('ô', Tone::Underdot) => 'ộ',
        ('ơ', Tone::Acute) => 'ớ',
        ('ơ', Tone::Grave) => 'ờ',
        ('ơ', Tone::Hook) => 'ở',
        ('ơ', Tone::Tilde) => 'ỡ',
        ('ơ', Tone::Underdot) => 'ợ',
        ('u', Tone::Acute) => 'ú',
        ('u', Tone::Grave) => 'ù',
        ('u', Tone::Hook) => 'ủ',
        ('u', Tone::Tilde) => 'ũ',
        ('u', Tone::Underdot) => 'ụ',
        ('ư', Tone::Acute) => 'ứ',
        ('ư', Tone::Grave) => 'ừ',
        ('ư', Tone::Hook) => 'ử',
        ('ư', Tone::Tilde) => 'ữ',
        ('ư', Tone::Underdot) => 'ự',
        ('y', Tone::Acute) => 'ý',
        ('y', Tone::Grave) => 'ỳ',
        ('y', Tone::Hook) => 'ỷ',
        ('y', Tone::Tilde) => 'ỹ',
        ('y', Tone::Underdot) => 'ỵ',
        _ => lower,
    };
    restore_case(base, res)
}

/// Applies vowel modifier key `modifier` to `c`, keeping tone and case;
/// `None` where it is no valid upgrade of `c`'s base.
pub fn apply_vowel_modifier(c: char, modifier: char) -> (r: Option<char>)
    ensures
        r == spec_apply_vowel_modifier(c, modifier),
{
    let (base, tone) = get_base_vowel_and_tone(c);
    let lower_base = fast_lower(base);
    let lower_mod = fast_lower(modifier);
    let new_base = match (lower_base, lower_mod) {
        ('a', 'a') => 'â',
        ('a', 'w') => 'ă',
        ('â', 'w') => 'ă',
        ('ă', 'a') => 'â',
        ('e', 'e') => 'ê',
        ('o', 'o') => 'ô',
        ('o', 'w') | ('o', '[') => 'ơ',
        ('ô', 'w') | ('ô', '[') => 'ơ',
        ('ơ', 'o') => 'ô',
        ('u', 'w') | ('u', '[') => 'ư',
        _ => return None,
    };
    Some(add_tone(restore_case(c, new_base), tone))
}

/// Undoes the modifier that key `modifier` creates on `c`, keeping tone and
/// case; `None` where `modifier` did not create `c`'s base.
pub fn remove_vowel_modifier(c: char, modifier: char) -> (r: Option<char>)
    ensures
        r == spec_remove_vowel_modifier(c, modifier),
{
    let (base, tone) = get_base_vowel_and_tone(c);
    let lower_base = fast_lower(base);
    let lower_mod = fast_lower(modifier);
    let new_base = match (lower_base, lower_mod) {
        ('ă', 'w') => 'a',
        ('â', 'a') => 'a',
        ('ê', 'e') => 'e',
        ('ô', 'o') => 'o',
        ('ơ', 'w') | ('ơ', '[') => 'o',
        ('ư', 'w') | ('ư', '[') => 'u',
        _ => return None,
    };
    Some(add_tone(restore_case(c, new_base), tone))
}


/// Index of the first vowel of `s` at or after `i`; `s.len()` if none.
pub open spec fn first_vowel_from(s: Seq<char>, i: int) -> int
    decreases s.len() - i,
{
    if i >= s.len() {
        s.len() as int
    } else if spec_is_vowel(s[i]) {
        i
    } else {
        first_vowel_from(s, i + 1)
    }
}

/// Last index of the run of consecutive vowels that starts at `j`.
pub open spec fn vowel_run_end(s: Seq<char>, j: int) -> int
    decreases s.len() - j,
{
    if 0 <= j && j + 1 < s.len() && spec_is_vowel(s[j + 1]) {
        vowel_run_end(s, j + 1)
    } else {
        j
    }
}

/// Position of the tone mark inside the vowel cluster of a syllable, counted
/// from the cluster's effective start `a` (after `qu`/`gi`), for a cluster
/// of `count` vowels, given whether consonants follow it.
pub open spec fn tone_offset(s: Seq<char>, a: int, count: int, is_qu: bool, has_coda: bool) -> int {
    if count == 1 {
        0
    } else if count == 2 {
        let v1 = spec_lower(spec_base(s[a]));
        let v2 = spec_lower(spec_base(s[a + 1]));
        if (v1 == 'u' && (v2 == 'ơ' || v2 == 'a' || v2 == 'ê')) || (v1 == 'ư' && v2 == 'ơ') || (
        v1 == 'o' && (v2 == 'a' || v2 == 'e')) {
            1
        } else if (v1 == 'u' || v1 == 'ư') && (v2 == 'y' || v2 == 'i') {
            if is_qu {
                0
            } else if has_coda {
                1
            } else {
                0
            }
        } else if has_coda {
            1
        } else {
            0
        }
    } else if count == 3 {
        let v1 = spec_lower(spec_base(s[a]));
        let v2 = spec_lower(spec_base(s[a + 1]));
        let v3 = spec_lower(spec_base(s[a + 2]));
        if (v1 == 'u' || v1 == 'ư') && (v2 == 'y' || v2 == 'i') && (v3 == 'e' || v3 == 'ê') {
            2
        } else {
            1
        }
    } else {
        1
    }
}

/// Where the tone mark of the syllable `s` goes: in its first run of vowels,
/// after a leading `qu` or (before more vowels) `gi`, by the Vietnamese
/// placement rules; `None` where there is no such vowel.
pub open spec fn spec_tone_target(s: Seq<char>) -> Option<usize> {
    let start = first_vowel_from(s, 0);
    if s.len() == 0 || start >= s.len() {
        None
    } else {
        let end = vowel_run_end(s, start);
        let is_qu = start > 0 && s[start] == 'u' && s[start - 1] == 'q';
        let a0 = if is_qu { start + 1 } else { start };
        if a0 > end {
            None
        } else {
            let a = if a0 > 0 && s[a0] == 'i' && s[a0 - 1] == 'g' && end > a0 {
                a0 + 1
            } else {
                a0
            };
            let has_coda = end < s.len() - 1;
            Some((a + tone_offset(s, a, end - a + 1, is_qu, has_coda)) as usize)
        }
    }
}

proof fn lemma_first_vowel_from(s: Seq<char>, i: int)
    requires
        0 <= i <= s.len(),
    ensures
        i <= first_vowel_from(s, i) <= s.len(),
        first_vowel_from(s, i) < s.len() ==> spec_is_vowel(s[first_vowel_from(s, i)]),
        forall|k: int| i <= k < first_vowel_from(s, i) ==> !spec_is_vowel(#[trigger] s[k]),
    decreases s.len() - i,
{
    if i < s.len() && !spec_is_vowel(s[i]) {
        lemma_first_vowel_from(s, i + 1);
    }
}

proof fn lemma_vowel_run_end(s: Seq<char>, j: int)
    requires
        0 <= j < s.len(),
        spec_is_vowel(s[j]),
    ensures
        j <= vowel_run_end(s, j) < s.len(),
        forall|k: int| j <= k <= vowel_run_end(s, j) ==> spec_is_vowel(#[trigger] s[k]),
        vowel_run_end(s, j) + 1 < s.len() ==> !spec_is_vowel(s[vowel_run_end(s, j) + 1]),
    decreases s.len() - j,
{
    if j + 1 < s.len() && spec_is_vowel(s[j + 1]) {
        lemma_vowel_run_end(s, j + 1);
    }
}

/// The tone mark always lands on a vowel of the syllable.
pub proof fn lemma_tone_target_is_vowel(s: Seq<char>)
    requires
        s.len() <= usize::MAX,
    ensures
        spec_tone_target(s) matches Some(i) ==> i < s.len() && spec_is_vowel(s[i as int]),
{
    if s.len() > 0 {
        lemma_first_vowel_from(s, 0);
        let start = first_vowel_from(s, 0);
        if start < s.len() {
            lemma_vowel_run_end(s, start);
            let end = vowel_run_end(s, start);
            let is_qu = start > 0 && s[start] == 'u' && s[start - 1] == 'q';
            let a0 = if is_qu { start + 1 } else { start };
            if a0 <= end {
                let a = if a0 > 0 && s[a0] == 'i' && s[a0 - 1] == 'g' && end > a0 {
                    a0 + 1
                } else {
                    a0
                };
                let has_coda = end < s.len() - 1;
                let off = tone_offset(s, a, end - a + 1, is_qu, has_coda);
                assert(0 <= off <= end - a);
                assert(spec_is_vowel(s[a + off]));
            }
        }
    }
}

/// Index of the vowel that carries the tone mark of the syllable `chars`.
pub fn find_tone_target_index(chars: &[char]) -> (r: Option<usize>)
    ensures
        r == spec_tone_target(chars@),
{
    let len = chars.len();
    if len == 0 {
        return None;
    }
    let ghost s = chars@;
    let mut start: usize = 0;
    while start < len && !is_vowel(chars[start])
        invariant
            len == s.len(),
            s == chars@,
            start <= len,
            first_vowel_from(s, start as int) == first_vowel_from(s, 0),
        decreases len - start,
    {
        start = start + 1;
    }
    if start >= len {
        return None;
    }
    let mut end: usize = start;
    while end + 1 < len && is_vowel(chars[end + 1])
        invariant
            len == s.len(),
            s == chars@,
            start <= end < len,
            vowel_run_end(s, end as int) == vowel_run_end(s, start as int),
        decreases len - end,
    {
        end = end + 1;
    }
    let mut actual_start = start;
    let mut is_qu = false;
    if start > 0 && chars[start] == 'u' && chars[start - 1] == 'q' {
        actual_start = actual_start + 1;
        is_qu = true;
    }
    if actual_start > end {
        return None;
    }
    if actual_start > 0 && chars[actual_start] == 'i' && chars[actual_start - 1] == 'g' {
        if end > actual_start {
            actual_start = actual_start + 1;
        }
    }
    let vowel_count = end - actual_start + 1;
    let has_coda = end < len - 1;
    let target_offset: usize = if vowel_count == 1 {
        0
    } else if vowel_count == 2 {
        let v1_l = fast_lower(get_base_vowel_and_tone(chars[actual_start]).0);
        let v2_l = fast_lower(get_base_vowel_and_tone(chars[actual_start + 1]).0);
        if (v1_l == 'u' && (v2_l == 'ơ' || v2_l == 'a' || v2_l == 'ê')) || (v1_l == 'ư' && v2_l
            == 'ơ') || (v1_l == 'o' && (v2_l == 'a' || v2_l == 'e')) {
            1
        } else if (v1_l == 'u' || v1_l == 'ư') && (v2_l == 'y' || v2_l == 'i') {
            if is_qu {
                0
            } else if has_coda {
                1
            } else {
                0
            }
        } else if has_coda {
            1
        } else {
            0
        }
    } else if vowel_count == 3 {
        let v1_l = fast_lower(get_base_vowel_and_tone(chars[actual_start]).0);
        let v2_l = fast_lower(get_base_vowel_and_tone(chars[actual_start + 1]).0);
        let v3_l = fast_lower(get_base_vowel_and_tone(chars[actual_start + 2]).0);
        if (v1_l == 'u' || v1_l == 'ư') && (v2_l == 'y' || v2_l == 'i') && (v3_l == 'e' || v3_l
            == 'ê') {
            2
        } else {
            1
        }
    } else {
        1
    };
    Some(actual_start + target_offset)
}

/// A plain lowercase vowel letter (no tone mark).
pub open spec fn is_base_vowel(b: char) -> bool {
    matches!(b, 'a' | 'ă' | 'â' | 'e' | 'ê' | 'i' | 'o' | 'ô' | 'ơ' | 'u' | 'ư' | 'y')
}

/// Putting a tone on a plain vowel and splitting it again gives back the
/// vowel and the tone, in lowercase and in uppercase.
pub proof fn lemma_add_tone_then_split(b: char, t: Tone)
    requires
        is_base_vowel(b),
    ensures
        spec_base_tone(spec_add_tone(b, t)) == (b, t),
        spec_base_tone(spec_add_tone(spec_upper(b), t)) == (spec_upper(b), t),
{
}

/// Splitting a vowel letter into base and tone and putting the tone back on
/// the base gives the letter back, in lowercase and in uppercase.
pub proof fn lemma_split_then_add_tone(c: char)
    requires
        is_lower_vowel(c),
    ensures
        spec_add_tone(spec_base(c), spec_tone(c)) == c,
        spec_add_tone(spec_base(spec_upper(c)), spec_tone(spec_upper(c))) == spec_upper(c),
{
}

/// Pressing a vowel modifier key again on the vowel that it just modified
/// takes the modifier off: `a`, `e`, `o`, `u` (with any tone) come back.
pub proof fn lemma_modifier_twice_cancels(c: char, m: char)
    requires
        is_lower_vowel(c),
        matches!(spec_base(c), 'a' | 'e' | 'o' | 'u'),
        spec_apply_vowel_modifier(c, m) is Some,
    ensures
        spec_remove_vowel_modifier(spec_apply_vowel_modifier(c, m)->0, m) == Some(c),
{
}

/// The same holds of the uppercase vowels: `Á --w--> Ắ --w--> Á`.
pub proof fn lemma_modifier_twice_cancels_upper(c: char, m: char)
    requires
        is_lower_vowel(c),
        matches!(spec_base(c), 'a' | 'e' | 'o' | 'u'),
        spec_apply_vowel_modifier(spec_upper(c), m) is Some,
    ensures
        spec_remove_vowel_modifier(spec_apply_vowel_modifier(spec_upper(c), m)->0, m) == Some(
            spec_upper(c),
        ),
{
}

/// Vowel recognition does not depend on case.
pub proof fn lemma_is_vowel_ignores_case(c: char)
    requires
        is_vn_lower(c) || ('a' <= c <= 'z'),
    ensures
        spec_is_vowel(spec_upper(c)) == spec_is_vowel(c),
{
}

/// Telex tone keys work in both cases and only `s f r x j` select a tone.
pub proof fn lemma_tone_key_ignores_case(c: char)
    ensures
        spec_tone_of_key(spec_ascii_lower(c)) == spec_tone_of_key(c),
        spec_tone_of_key(c) is Some <==> matches!(spec_ascii_lower(c), 's' | 'f' | 'r' | 'x' | 'j'),
{
}

} // verus!
