//! User settings: typing method, toggle hotkey and feature switches.

use vstd::prelude::*;
use crate::engine::{method_name, next_input_method, spec_method_name, spec_next_method, InputMethod};
use crate::letters::spec_ascii_lower;
use crate::text::{ascii_ci_eq, eq_ignore_ascii_case, str_to_lowercase, unicode_str_lowercase};

verus! {

broadcast use vstd::string::group_string_axioms;

/// The settings of the input method.
#[derive(Debug, Clone)]
pub struct Config {
    /// `"telex"`, `"vni"` or `"viqr"` (any ASCII case); anything else means
    /// Telex.
    pub input_method: String,
    /// Modifier of the on/off hotkey, such as `"control"`.
    pub toggle_modifier: String,
    /// Key of the on/off hotkey, such as `"space"`.
    pub toggle_key: String,
    /// Whether Vietnamese typing is on at start.
    pub start_enabled: bool,
    /// Whether words that are not Vietnamese fall back to the keys typed.
    pub spell_check: bool,
    /// Whether Escape switches Vietnamese typing off.
    pub vim_mode: bool,
    /// Whether each window remembers its own on/off state.
    pub per_window_state: bool,
    /// Modifier of the hotkey that cycles the typing method.
    pub cycle_modifier: String,
    /// Key of the hotkey that cycles the typing method.
    pub cycle_key: String,
    /// Whether a desktop notification reports each switch.
    pub notification_enabled: bool,
    /// How long (ms) the X11 front end waits for an application to read the
    /// clipboard.
    pub clipboard_timeout_ms: u64,
}

/// Spell checking is on unless the settings say otherwise.
pub fn default_spell_check() -> (r: bool)
    ensures
        r,
{
    true
}

/// Escape leaves Vietnamese typing on unless the settings say otherwise.
pub fn default_vim_mode() -> (r: bool)
    ensures
        !r,
{
    false
}

/// Windows share one on/off state unless the settings say otherwise.
pub fn default_per_window_state() -> (r: bool)
    ensures
        !r,
{
    false
}

/// The cycle hotkey's modifier unless the settings say otherwise.
pub fn default_cycle_modifier() -> (r: String)
    ensures
        r@ == seq!['c', 'o', 'n', 't', 'r', 'o', 'l'],
{
    proof {
        reveal_strlit("control");
    }
    "control".to_string()
}

/// The cycle hotkey's key unless the settings say otherwise.
pub fn default_cycle_key() -> (r: String)
    ensures
        r@ == seq!['p', 'e', 'r', 'i', 'o', 'd'],
{
    proof {
        reveal_strlit("period");
    }
    "period".to_string()
}

/// Notifications are shown unless the settings say otherwise.
pub fn default_notification_enabled() -> (r: bool)
    ensures
        r,
{
    true
}

/// The X11 clipboard wait unless the settings say otherwise.
pub fn default_clipboard_timeout_ms() -> (r: u64)
    ensures
        r == 20,
{
    20
}

/// `s` names VNI: it is `vni` in any ASCII case.
pub open spec fn names_vni(s: Seq<char>) -> bool {
    ascii_ci_eq(s, seq!['v', 'n', 'i'])
}

/// `s` names VIQR: it is `viqr` in any ASCII case.
pub open spec fn names_viqr(s: Seq<char>) -> bool {
    ascii_ci_eq(s, seq!['v', 'i', 'q', 'r'])
}

impl Default for Config {
    /// Telex, Control+Space, on at start, spell checking on, the rest off.
    fn default() -> (r: Self)
        ensures
            r.input_method@ == seq!['t', 'e', 'l', 'e', 'x'],
            r.toggle_modifier@ == seq!['c', 'o', 'n', 't', 'r', 'o', 'l'],
            r.toggle_key@ == seq!['s', 'p', 'a', 'c', 'e'],
            r.start_enabled,
            r.spell_check,
            !r.vim_mode,
            !r.per_window_state,
            r.cycle_modifier@ == seq!['c', 'o', 'n', 't', 'r', 'o', 'l'],
            r.cycle_key@ == seq!['p', 'e', 'r', 'i', 'o', 'd'],
            r.notification_enabled,
            r.clipboard_timeout_ms == 20,
    {
        let input_method = "telex".to_string();
        let toggle_modifier = "control".to_string();
        let toggle_key = "space".to_string();
        proof {
            reveal_strlit("telex");
            reveal_strlit("control");
            reveal_strlit("space");
        }
        Self {
            input_method,
            toggle_modifier,
            toggle_key,
            start_enabled: true,
            spell_check: default_spell_check(),
            vim_mode: default_vim_mode(),
            per_window_state: default_per_window_state(),
            cycle_modifier: default_cycle_modifier(),
            cycle_key: default_cycle_key(),
            notification_enabled: default_notification_enabled(),
            clipboard_timeout_ms: default_clipboard_timeout_ms(),
        }
    }
}

impl Config {
    /// VNI or VIQR when `input_method` names them in any ASCII case, else
    /// Telex.
    pub fn get_input_method(&self) -> (r: InputMethod)
        ensures
            r == (if names_vni(self.input_method@) {
                InputMethod::Vni
            } else if names_viqr(self.input_method@) {
                InputMethod::Viqr
            } else {
                InputMethod::Telex
            }),
    {
        proof {
            reveal_strlit("vni");
            reveal_strlit("viqr");
        }
        if eq_ignore_ascii_case(self.input_method.as_str(), "vni") {
            InputMethod::Vni
        } else if eq_ignore_ascii_case(self.input_method.as_str(), "viqr") {
            InputMethod::Viqr
        } else {
            InputMethod::Telex
        }
    }

    /// The settings after one press of the method cycle hotkey: the method
    /// after the current one (Telex → VNI → VIQR → Telex), written by its
    /// name; everything else is kept.
    pub fn with_next_input_method(self) -> (r: Config)
        ensures
            r.input_method@ == spec_method_name(spec_next_method(self.read_method())),
            r == (Config { input_method: r.input_method, ..self }),
    {
        let next = next_input_method(self.get_input_method());
        let name = method_name(next).to_string();
        Config { input_method: name, ..self }
    }

    /// The method the settings choose; see [`Config::get_input_method`].
    pub open spec fn read_method(&self) -> InputMethod {
        if names_vni(self.input_method@) {
            InputMethod::Vni
        } else if names_viqr(self.input_method@) {
            InputMethod::Viqr
        } else {
            InputMethod::Telex
        }
    }

    /// The cycle hotkey's modifier as stored.
    pub fn get_cycle_method_modifier_normalized(&self) -> (r: &str)
        ensures
            r@ == self.cycle_modifier@,
    {
        self.cycle_modifier.as_str()
    }

    /// The cycle hotkey's key as stored.
    pub fn get_cycle_method_key_normalized(&self) -> (r: &str)
        ensures
            r@ == self.cycle_key@,
    {
        self.cycle_key.as_str()
    }

    /// The toggle modifier as stored (lowercased when loaded).
    pub fn get_toggle_modifier_normalized(&self) -> (r: &str)
        ensures
            r@ == self.toggle_modifier@,
    {
        self.toggle_modifier.as_str()
    }

    /// The toggle key as stored (lowercased when loaded).
    pub fn get_toggle_key_normalized(&self) -> (r: &str)
        ensures
            r@ == self.toggle_key@,
    {
        self.toggle_key.as_str()
    }

    /// The settings as read from a file, with the hotkey's modifier and key
    /// lowercased.
    pub fn normalized(self) -> (r: Config)
        ensures
            r.toggle_modifier@ == unicode_str_lowercase(self.toggle_modifier@),
            r.toggle_key@ == unicode_str_lowercase(self.toggle_key@),
            r.input_method == self.input_method,
            r.start_enabled == self.start_enabled,
            r.spell_check == self.spell_check,
            r.vim_mode == self.vim_mode,
            r.per_window_state == self.per_window_state,
            r.cycle_modifier == self.cycle_modifier,
            r.cycle_key == self.cycle_key,
            r.notification_enabled == self.notification_enabled,
            r.clipboard_timeout_ms == self.clipboard_timeout_ms,
    {
        let toggle_modifier = str_to_lowercase(self.toggle_modifier.as_str());
        let toggle_key = str_to_lowercase(self.toggle_key.as_str());
        Config { toggle_modifier, toggle_key, ..self }
    }
}

/// The method read from the settings is the method whose name was written
/// there.
pub proof fn lemma_method_name_read_back(m: InputMethod)
    ensures
        (if names_vni(spec_method_name(m)) {
            InputMethod::Vni
        } else if names_viqr(spec_method_name(m)) {
            InputMethod::Viqr
        } else {
            InputMethod::Telex
        }) == m,
{
    match m {
        InputMethod::Telex => {
            assert(spec_ascii_lower('t') != spec_ascii_lower('v'));
        },
        InputMethod::Vni => {
            assert(names_vni(seq!['v', 'n', 'i']));
        },
        InputMethod::Viqr => {
            assert(!names_vni(seq!['v', 'i', 'q', 'r']));
            assert(names_viqr(seq!['v', 'i', 'q', 'r']));
        },
    }
}

/// The default settings choose Telex.
pub proof fn lemma_default_method_is_telex()
    ensures
        !names_vni(seq!['t', 'e', 'l', 'e', 'x']),
        !names_viqr(seq!['t', 'e', 'l', 'e', 'x']),
{
}

} // verus!
