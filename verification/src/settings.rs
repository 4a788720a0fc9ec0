//! The state behind the settings window: the settings being edited and the
//! message shown after saving them.

use vstd::prelude::*;
use crate::config::Config;
use crate::letters::{ascii_lower, spec_ascii_lower};
use crate::text::{chars_of, contains, seq_contains, str_to_lowercase, string_of, unicode_str_lowercase};

verus! {

broadcast use vstd::string::group_string_axioms;

/// Settings being edited, and the outcome of the last save.
pub struct AppState {
    pub config: Config,
    pub save_status: String,
}

/// The message shown after a successful save.
pub open spec fn saved_message() -> Seq<char> {
    "Đã lưu! Daemon sẽ tự động reload trong vài giây."@
}

/// The message shown before the error of a failed save.
pub open spec fn failed_prefix() -> Seq<char> {
    "Lỗi khi lưu: "@
}

impl AppState {
    /// Editing starts from `config` (the settings as loaded), with no message.
    pub fn new(config: Config) -> (r: Self)
        ensures
            r.config == config,
            r.save_status@ == Seq::<char>::empty(),
    {
        Self { config, save_status: String::new() }
    }

    /// Chooses the typing method by name.
    pub fn toggle_input_method(&mut self, method: &str)
        ensures
            final(self).config.input_method@ == method@,
            final(self).config == (Config {
                input_method: final(self).config.input_method,
                ..old(self).config
            }),
            final(self).save_status == old(self).save_status,
    {
        self.config.input_method = method.to_string();
    }

    pub fn set_spell_check(&mut self, enabled: bool)
        ensures
            final(self).config == (Config { spell_check: enabled, ..old(self).config }),
            final(self).save_status == old(self).save_status,
    {
        self.config.spell_check = enabled;
    }

    /// Sets the hotkey's modifier, lowercased.
    pub fn set_toggle_modifier(&mut self, modifier: &str)
        ensures
            final(self).config.toggle_modifier@ == unicode_str_lowercase(modifier@),
            final(self).config == (Config {
                toggle_modifier: final(self).config.toggle_modifier,
                ..old(self).config
            }),
            final(self).save_status == old(self).save_status,
    {
        self.config.toggle_modifier = str_to_lowercase(modifier);
    }

    pub fn set_start_enabled(&mut self, enabled: bool)
        ensures
            final(self).config == (Config { start_enabled: enabled, ..old(self).config }),
            final(self).save_status == old(self).save_status,
    {
        self.config.start_enabled = enabled;
    }

    pub fn set_vim_mode(&mut self, enabled: bool)
        ensures
            final(self).config == (Config { vim_mode: enabled, ..old(self).config }),
            final(self).save_status == old(self).save_status,
    {
        self.config.vim_mode = enabled;
    }

    pub fn set_per_window_state(&mut self, enabled: bool)
        ensures
            final(self).config == (Config { per_window_state: enabled, ..old(self).config }),
            final(self).save_status == old(self).save_status,
    {
        self.config.per_window_state = enabled;
    }

    pub fn set_notification_enabled(&mut self, enabled: bool)
        ensures
            final(self).config == (Config { notification_enabled: enabled, ..old(self).config }),
            final(self).save_status == old(self).save_status,
    {
        self.config.notification_enabled = enabled;
    }

    /// Sets how long the X11 front end waits for the clipboard.
    pub fn set_clipboard_timeout_ms(&mut self, ms: u64)
        ensures
            final(self).config == (Config { clipboard_timeout_ms: ms, ..old(self).config }),
            final(self).save_status == old(self).save_status,
    {
        self.config.clipboard_timeout_ms = ms;
    }

    /// Lowercases the ASCII letters of the hotkey's key, as typed in the
    /// settings window.
    pub fn lowercase_toggle_key(&mut self)
        ensures
            final(self).config.toggle_key@ == old(self).config.toggle_key@.map_values(
                |c: char| spec_ascii_lower(c),
            ),
            final(self).config == (Config {
                toggle_key: final(self).config.toggle_key,
                ..old(self).config
            }),
            final(self).save_status == old(self).save_status,
    {
        let chars = chars_of(self.config.toggle_key.as_str());
        let mut lowered: Vec<char> = Vec::new();
        let mut i: usize = 0;
        while i < chars.len()
            invariant
                i <= chars@.len(),
                lowered@ == chars@.take(i as int).map_values(|c: char| spec_ascii_lower(c)),
            decreases chars@.len() - i,
        {
            lowered.push(ascii_lower(chars[i]));
            i = i + 1;
            assert(lowered@ =~= chars@.take(i as int).map_values(|c: char| spec_ascii_lower(c)));
        }
        assert(chars@.take(chars@.len() as int) =~= chars@);
        self.config.toggle_key = string_of(&lowered);
    }

    /// Whether the message of the last save reports an error (it mentions
    /// `Lỗi`).
    pub fn save_failed(&self) -> (r: bool)
        ensures
            r == seq_contains(self.save_status@, "Lỗi"@),
    {
        contains(self.save_status.as_str(), "Lỗi")
    }

    /// Records how saving the settings went: a confirmation, or the error
    /// after a fixed prefix. The settings themselves are unchanged.
    pub fn finish_save(&mut self, outcome: Result<(), String>)
        ensures
            final(self).config == old(self).config,
            final(self).save_status@ == match outcome {
                Ok(_) => saved_message(),
                Err(e) => failed_prefix() + e@,
            },
    {
        match outcome {
            Err(e) => {
                let mut status = "Lỗi khi lưu: ".to_string();
                status.append(e.as_str());
                self.save_status = status;
            },
            Ok(_) => {
                self.save_status = "Đã lưu! Daemon sẽ tự động reload trong vài giây.".to_string();
            },
        }
    }
}

} // verus!
