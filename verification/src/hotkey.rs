//! The on/off hotkey: which held modifiers and which key match the
//! configured modifier and key names.

use vstd::prelude::*;
use crate::text::{contains, seq_contains, str_to_lowercase, unicode_str_lowercase};

verus! {

/// Modifier keys held down while a key is pressed.
#[derive(Debug, Clone, Copy, PartialEq, Eq)]
pub struct HeldModifiers {
    pub control: bool,
    pub shift: bool,
    pub alt: bool,
    pub super_key: bool,
}

/// A configured modifier name and the name of a held modifier refer to each
/// other: one of them contains the other.
pub open spec fn mod_names_match(config_mod: Seq<char>, name: Seq<char>) -> bool {
    seq_contains(config_mod, name) || seq_contains(name, config_mod)
}

/// The held modifiers satisfy the configured modifier: it is empty, or a
/// held modifier's name (`control`, `shift`, `alt`, `super`) matches it.
pub open spec fn spec_modifiers_match(held: HeldModifiers, config_mod: Seq<char>) -> bool {
    ||| config_mod.len() == 0
    ||| held.control && mod_names_match(config_mod, "control"@)
    ||| held.shift && mod_names_match(config_mod, "shift"@)
    ||| held.alt && mod_names_match(config_mod, "alt"@)
    ||| held.super_key && mod_names_match(config_mod, "super"@)
}

/// Whether a configured modifier name and one held modifier refer to each other.
fn mod_matches(config_mod: &str, name: &str) -> (r: bool)
    ensures
        r == mod_names_match(config_mod@, name@),
{
    contains(config_mod, name) || contains(name, config_mod)
}

/// Whether the held modifiers satisfy the configured modifier name.
pub fn modifiers_match(held: HeldModifiers, config_mod: &str) -> (r: bool)
    ensures
        r == spec_modifiers_match(held, config_mod@),
{
    if config_mod.is_empty() {
        true
    } else {
        (held.control && mod_matches(config_mod, "control")) || (held.shift && mod_matches(
            config_mod,
            "shift",
        )) || (held.alt && mod_matches(config_mod, "alt")) || (held.super_key && mod_matches(
            config_mod,
            "super",
        ))
    }
}

/// Hotkey test of the front ends that read the keyboard themselves: the
/// modifiers match and the configured key occurs in the key's (lowercased)
/// name, compared exactly.
pub fn is_direct_hotkey(held: HeldModifiers, key_name: &str, config_mod: &str, config_key: &str) -> (r: bool)
    ensures
        r == (spec_modifiers_match(held, config_mod@) && seq_contains(key_name@, config_key@)),
{
    modifiers_match(held, config_mod) && contains(key_name, config_key)
}

/// Hotkey test of the front ends that read the keyboard themselves, on the
/// key's name as libxkbcommon gives it: the name is lowercased
/// (`str::to_lowercase`) and then matched as in [`is_direct_hotkey`].
pub fn is_direct_hotkey_named(
    held: HeldModifiers,
    raw_key_name: &str,
    config_mod: &str,
    config_key: &str,
) -> (r: bool)
    ensures
        r == (spec_modifiers_match(held, config_mod@) && seq_contains(
            unicode_str_lowercase(raw_key_name@),
            config_key@,
        )),
{
    let name = str_to_lowercase(raw_key_name);
    is_direct_hotkey(held, name.as_str(), config_mod, config_key)
}

} // verus!
