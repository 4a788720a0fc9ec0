//! Letter classes used by the Vietnamese composition rules: the ASCII
//! helpers, the table of Vietnamese letters with their case partners, and the
//! Unicode case functions of `char` for everything outside that table.

use vstd::prelude::*;

verus! {

/// `c` is an ASCII character.
pub open spec fn is_ascii_char(c: char) -> bool {
    (c as u32) < 128
}

/// ASCII lowercase mapping: `'A'..='Z'` go to `'a'..='z'`, all else is kept.
pub open spec fn spec_ascii_lower(c: char) -> char {
    if 'A' <= c <= 'Z' {
        ((c as u32) + 32) as char
    } else {
        c
    }
}

/// ASCII uppercase mapping: `'a'..='z'` go to `'A'..='Z'`, all else is kept.
pub open spec fn spec_ascii_upper(c: char) -> char {
    if 'a' <= c <= 'z' {
        ((c as u32) - 32) as char
    } else {
        c
    }
}

pub open spec fn spec_is_ascii_alphabetic(c: char) -> bool {
    ('a' <= c <= 'z') || ('A' <= c <= 'Z')
}

pub open spec fn spec_is_ascii_digit(c: char) -> bool {
    '0' <= c <= '9'
}

/// Number of bytes of `c` in UTF-8.
pub open spec fn spec_utf8_len(c: char) -> nat {
    if (c as u32) < 0x80 {
        1
    } else if (c as u32) < 0x800 {
        2
    } else if (c as u32) < 0x10000 {
        3
    } else {
        4
    }
}

/// The non-ASCII lowercase letters of the Vietnamese alphabet: the modified
/// vowels, `đ`, and every vowel carrying one of the five tone marks.
pub open spec fn is_vn_lower(c: char) -> bool {
    matches!(
        c,
        'ă' | 'â' | 'ê' | 'ô' | 'ơ' | 'ư' | 'đ' | 'á' | 'à' | 'ả' | 'ã' | 'ạ'
        | 'ắ' | 'ằ' | 'ẳ' | 'ẵ' | 'ặ' | 'ấ' | 'ầ' | 'ẩ' | 'ẫ' | 'ậ' | 'é' | 'è'
        | 'ẻ' | 'ẽ' | 'ẹ' | 'ế' | 'ề' | 'ể' | 'ễ' | 'ệ' | 'í' | 'ì' | 'ỉ' | 'ĩ'
        | 'ị' | 'ó' | 'ò' | 'ỏ' | 'õ' | 'ọ' | 'ố' | 'ồ' | 'ổ' | 'ỗ' | 'ộ' | 'ớ'
        | 'ờ' | 'ở' | 'ỡ' | 'ợ' | 'ú' | 'ù' | 'ủ' | 'ũ' | 'ụ' | 'ứ' | 'ừ' | 'ử'
        | 'ữ' | 'ự' | 'ý' | 'ỳ' | 'ỷ' | 'ỹ' | 'ỵ'
    )
}

/// The uppercase partners of [`is_vn_lower`].
pub open spec fn is_vn_upper(c: char) -> bool {
    matches!(
        c,
        'Ă' | 'Â' | 'Ê' | 'Ô' | 'Ơ' | 'Ư' | 'Đ' | 'Á' | 'À' | 'Ả' | 'Ã' | 'Ạ'
        | 'Ắ' | 'Ằ' | 'Ẳ' | 'Ẵ' | 'Ặ' | 'Ấ' | 'Ầ' | 'Ẩ' | 'Ẫ' | 'Ậ' | 'É' | 'È'
        | 'Ẻ' | 'Ẽ' | 'Ẹ' | 'Ế' | 'Ề' | 'Ể' | 'Ễ' | 'Ệ' | 'Í' | 'Ì' | 'Ỉ' | 'Ĩ'
        | 'Ị' | 'Ó' | 'Ò' | 'Ỏ' | 'Õ' | 'Ọ' | 'Ố' | 'Ồ' | 'Ổ' | 'Ỗ' | 'Ộ' | 'Ớ'
        | 'Ờ' | 'Ở' | 'Ỡ' | 'Ợ' | 'Ú' | 'Ù' | 'Ủ' | 'Ũ' | 'Ụ' | 'Ứ' | 'Ừ' | 'Ử'
        | 'Ữ' | 'Ự' | 'Ý' | 'Ỳ' | 'Ỷ' | 'Ỹ' | 'Ỵ'
    )
}

/// Uppercase partner of a Vietnamese lowercase letter.
pub open spec fn vn_upper(c: char) -> char {
    match c {
        'ă' => 'Ă',
        'â' => 'Â',
        'ê' => 'Ê',
        'ô' => 'Ô',
        'ơ' => 'Ơ',
        'ư' => 'Ư',
        'đ' => 'Đ',
        'á' => 'Á',
        'à' => 'À',
        'ả' => 'Ả',
        'ã' => 'Ã',
        'ạ' => 'Ạ',
        'ắ' => 'Ắ',
        'ằ' => 'Ằ',
        'ẳ' => 'Ẳ',
        'ẵ' => 'Ẵ',
        'ặ' => 'Ặ',
        'ấ' => 'Ấ',
        'ầ' => 'Ầ',
        'ẩ' => 'Ẩ',
        'ẫ' => 'Ẫ',
        'ậ' => 'Ậ',
        'é' => 'É',
        'è' => 'È',
        'ẻ' => 'Ẻ',
        'ẽ' => 'Ẽ',
        'ẹ' => 'Ẹ',
        'ế' => 'Ế',
        'ề' => 'Ề',
        'ể' => 'Ể',
        'ễ' => 'Ễ',
        'ệ' => 'Ệ',
        'í' => 'Í',
        'ì' => 'Ì',
        'ỉ' => 'Ỉ',
        'ĩ' => 'Ĩ',
        'ị' => 'Ị',
        'ó' => 'Ó',
        'ò' => 'Ò',
        'ỏ' => 'Ỏ',
        'õ' => 'Õ',
        'ọ' => 'Ọ',
        'ố' => 'Ố',
        'ồ' => 'Ồ',
        'ổ' => 'Ổ',
        'ỗ' => 'Ỗ',
        'ộ' => 'Ộ',
        'ớ' => 'Ớ',
        'ờ' => 'Ờ',
        'ở' => 'Ở',
        'ỡ' => 'Ỡ',
        'ợ' => 'Ợ',
        'ú' => 'Ú',
        'ù' => 'Ù',
        'ủ' => 'Ủ',
        'ũ' => 'Ũ',
        'ụ' => 'Ụ',
        'ứ' => 'Ứ',
        'ừ' => 'Ừ',
        'ử' => 'Ử',
        'ữ' => 'Ữ',
        'ự' => 'Ự',
        'ý' => 'Ý',
        'ỳ' => 'Ỳ',
        'ỷ' => 'Ỷ',
        'ỹ' => 'Ỹ',
        'ỵ' => 'Ỵ',
        _ => c,
    }
}

/// Lowercase partner of a Vietnamese uppercase letter.
pub open spec fn vn_lower(c: char) -> char {
    match c {
        'Ă' => 'ă',
        'Â' => 'â',
        'Ê' => 'ê',
        'Ô' => 'ô',
        'Ơ' => 'ơ',
        'Ư' => 'ư',
        'Đ' => 'đ',
        'Á' => 'á',
        'À' => 'à',
        'Ả' => 'ả',
        'Ã' => 'ã',
        'Ạ' => 'ạ',
        'Ắ' => 'ắ',
        'Ằ' => 'ằ',
        'Ẳ' => 'ẳ',
        'Ẵ' => 'ẵ',
        'Ặ' => 'ặ',
        'Ấ' => 'ấ',
        'Ầ' => 'ầ',
        'Ẩ' => 'ẩ',
        'Ẫ' => 'ẫ',
        'Ậ' => 'ậ',
        'É' => 'é',
        'È' => 'è',
        'Ẻ' => 'ẻ',
        'Ẽ' => 'ẽ',
        'Ẹ' => 'ẹ',
        'Ế' => 'ế',
        'Ề' => 'ề',
        'Ể' => 'ể',
        'Ễ' => 'ễ',
        'Ệ' => 'ệ',
        'Í' => 'í',
        'Ì' => 'ì',
        'Ỉ' => 'ỉ',
        'Ĩ' => 'ĩ',
        'Ị' => 'ị',
        'Ó' => 'ó',
        'Ò' => 'ò',
        'Ỏ' => 'ỏ',
        'Õ' => 'õ',
        'Ọ' => 'ọ',
        'Ố' => 'ố',
        'Ồ' => 'ồ',
        'Ổ' => 'ổ',
        'Ỗ' => 'ỗ',
        'Ộ' => 'ộ',
        'Ớ' => 'ớ',
        'Ờ' => 'ờ',
        'Ở' => 'ở',
        'Ỡ' => 'ỡ',
        'Ợ' => 'ợ',
        'Ú' => 'ú',
        'Ù' => 'ù',
        'Ủ' => 'ủ',
        'Ũ' => 'ũ',
        'Ụ' => 'ụ',
        'Ứ' => 'ứ',
        'Ừ' => 'ừ',
        'Ử' => 'ử',
        'Ữ' => 'ữ',
        'Ự' => 'ự',
        'Ý' => 'ý',
        'Ỳ' => 'ỳ',
        'Ỷ' => 'ỷ',
        'Ỹ' => 'ỹ',
        'Ỵ' => 'ỵ',
        _ => c,
    }
}
/// First character of `c.to_lowercase()` (Unicode lowercase mapping).
pub uninterp spec fn unicode_lowercase(c: char) -> char;

/// First character of `c.to_uppercase()` (Unicode uppercase mapping).
pub uninterp spec fn unicode_uppercase(c: char) -> char;

/// `c.is_uppercase()`: whether `c` has the Unicode `Uppercase` property.
pub uninterp spec fn unicode_is_uppercase(c: char) -> bool;

/// Lowercase of `c` as the composition rules compute it: ASCII by the ASCII
/// rule, Vietnamese letters by their table, anything else by Unicode.
pub open spec fn spec_lower(c: char) -> char {
    if is_ascii_char(c) {
        spec_ascii_lower(c)
    } else if is_vn_upper(c) {
        vn_lower(c)
    } else if is_vn_lower(c) {
        c
    } else {
        unicode_lowercase(c)
    }
}

/// Uppercase of `c` (first character of its uppercase mapping).
pub open spec fn spec_upper(c: char) -> char {
    if is_ascii_char(c) {
        spec_ascii_upper(c)
    } else if is_vn_lower(c) {
        vn_upper(c)
    } else if is_vn_upper(c) {
        c
    } else {
        unicode_uppercase(c)
    }
}

/// Whether `c` is an uppercase character.
pub open spec fn spec_is_upper(c: char) -> bool {
    if is_ascii_char(c) {
        'A' <= c <= 'Z'
    } else if is_vn_upper(c) {
        true
    } else if is_vn_lower(c) {
        false
    } else {
        unicode_is_uppercase(c)
    }
}

/// Calls `char::to_lowercase` and keeps its first character.
/// Claims: the result is the first character of the Unicode lowercase
/// mapping of `c`; for the Vietnamese uppercase letters that is their
/// lowercase partner, and a Vietnamese lowercase letter maps to itself
/// (all these letters have one-to-one mappings in UnicodeData.txt).
#[verifier::external_body]
fn char_to_lowercase(c: char) -> (r: char)
    ensures
        r == unicode_lowercase(c),
        is_vn_upper(c) ==> r == vn_lower(c),
        is_vn_lower(c) ==> r == c,
{
    c.to_lowercase().next().unwrap_or(c)
}

/// Calls `char::to_uppercase` and keeps its first character.
/// Claims: the result is the first character of the Unicode uppercase
/// mapping of `c`; a Vietnamese lowercase letter maps to its uppercase
/// partner and a Vietnamese uppercase letter to itself.
#[verifier::external_body]
fn char_to_uppercase(c: char) -> (r: char)
    ensures
        r == unicode_uppercase(c),
        is_vn_lower(c) ==> r == vn_upper(c),
        is_vn_upper(c) ==> r == c,
{
    c.to_uppercase().next().unwrap_or(c)
}

/// Calls `char::is_uppercase`.
/// Claims: the result is the Unicode `Uppercase` property of `c`, which the
/// Vietnamese uppercase letters have and their lowercase partners lack.
#[verifier::external_body]
fn char_is_uppercase(c: char) -> (r: bool)
    ensures
        r == unicode_is_uppercase(c),
        is_vn_upper(c) ==> r,
        is_vn_lower(c) ==> !r,
{
    c.is_uppercase()
}

/// ASCII lowercase of `c` (`char::to_ascii_lowercase`).
pub fn ascii_lower(c: char) -> (r: char)
    ensures
        r == spec_ascii_lower(c),
{
    if 'A' <= c && c <= 'Z' {
        let b: u8 = ((c as u32) + 32) as u8;
        let r = b as char;
        assert(r == ((c as u32) + 32) as char) by {
            assert((b as u32) == (c as u32) + 32);
        }
        r
    } else {
        c
    }
}

/// ASCII uppercase of `c` (`char::to_ascii_uppercase`).
pub fn ascii_upper(c: char) -> (r: char)
    ensures
        r == spec_ascii_upper(c),
{
    if 'a' <= c && c <= 'z' {
        let b: u8 = ((c as u32) - 32) as u8;
        let r = b as char;
        assert(r == ((c as u32) - 32) as char) by {
            assert((b as u32) == (c as u32) - 32);
        }
        r
    } else {
        c
    }
}

/// `char::is_ascii`.
pub fn is_ascii(c: char) -> (r: bool)
    ensures
        r == is_ascii_char(c),
{
    (c as u32) < 128
}

/// `char::is_ascii_alphabetic`.
pub fn is_ascii_alphabetic(c: char) -> (r: bool)
    ensures
        r == spec_is_ascii_alphabetic(c),
{
    ('a' <= c && c <= 'z') || ('A' <= c && c <= 'Z')
}

/// `char::is_ascii_digit`.
pub fn is_ascii_digit(c: char) -> (r: bool)
    ensures
        r == spec_is_ascii_digit(c),
{
    '0' <= c && c <= '9'
}

/// `char::len_utf8`.
pub fn utf8_len(c: char) -> (r: usize)
    ensures
        r == spec_utf8_len(c),
{
    let v = c as u32;
    if v < 0x80 {
        1
    } else if v < 0x800 {
        2
    } else if v < 0x10000 {
        3
    } else {
        4
    }
}

/// Lowercase of `c`: the ASCII rule for ASCII, else the first character of
/// the Unicode lowercase mapping.
pub fn lower(c: char) -> (r: char)
    ensures
        r == spec_lower(c),
        is_ascii_char(c) ==> r == spec_ascii_lower(c),
        !is_ascii_char(c) ==> r == unicode_lowercase(c),
{
    if is_ascii(c) {
        ascii_lower(c)
    } else {
        char_to_lowercase(c)
    }
}

/// Uppercase of `c`: the ASCII rule for ASCII, else the first character of
/// the Unicode uppercase mapping.
pub fn upper(c: char) -> (r: char)
    ensures
        r == spec_upper(c),
        is_ascii_char(c) ==> r == spec_ascii_upper(c),
        !is_ascii_char(c) ==> r == unicode_uppercase(c),
{
    if is_ascii(c) {
        ascii_upper(c)
    } else {
        char_to_uppercase(c)
    }
}

/// Whether `c` is uppercase (`char::is_uppercase`).
pub fn is_upper(c: char) -> (r: bool)
    ensures
        r == spec_is_upper(c),
{
    if is_ascii(c) {
        'A' <= c && c <= 'Z'
    } else {
        char_is_uppercase(c)
    }
}

/// `c` is a character whose case the composition rules know exactly: ASCII
/// or a letter of the Vietnamese table.
pub open spec fn is_cased_known(c: char) -> bool {
    is_ascii_char(c) || is_vn_lower(c) || is_vn_upper(c)
}

/// Lowercasing such a character twice changes nothing more, and gives a
/// character of the same kind.
pub proof fn lemma_lower_idempotent(c: char)
    requires
        is_cased_known(c),
    ensures
        spec_lower(spec_lower(c)) == spec_lower(c),
        is_cased_known(spec_lower(c)),
        !spec_is_upper(spec_lower(c)),
{
}

/// Every Vietnamese letter's case partners map back to it.
pub proof fn lemma_vn_case_roundtrip(c: char)
    ensures
        is_vn_lower(c) ==> is_vn_upper(vn_upper(c)) && vn_lower(vn_upper(c)) == c,
        is_vn_upper(c) ==> is_vn_lower(vn_lower(c)) && vn_upper(vn_lower(c)) == c,
        !(is_vn_lower(c) && is_vn_upper(c)),
        is_vn_lower(c) || is_vn_upper(c) ==> !is_ascii_char(c),
{
}

} // verus!
