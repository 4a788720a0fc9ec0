//! Decisions of the front ends that own the keyboard (Wayland input method,
//! X11 keyboard grab): where a key press goes, what is sent to the
//! application for each engine answer, and which key releases are swallowed.

use vstd::prelude::*;
use std::collections::HashSet;
use crate::buffer::CharBuffer;
use crate::engine::Action;

verus! {

broadcast use vstd::std_specs::hash::group_hash_axioms;

/// Keysyms of keys that only modify others: Shift, Control, Caps Lock,
/// Meta, Alt and Super (left and right), and Num Lock.
pub open spec fn spec_is_modifier_keysym(keysym: u32) -> bool {
    ||| keysym == 0xFFE1
    ||| keysym == 0xFFE2
    ||| keysym == 0xFFE3
    ||| keysym == 0xFFE4
    ||| keysym == 0xFFE5
    ||| keysym == 0xFFE7
    ||| keysym == 0xFFE8
    ||| keysym == 0xFFE9
    ||| keysym == 0xFFEA
    ||| keysym == 0xFFEB
    ||| keysym == 0xFFEC
    ||| keysym == 0xFF7F
}

pub fn is_modifier_keysym(keysym: u32) -> (r: bool)
    ensures
        r == spec_is_modifier_keysym(keysym),
{
    keysym == 0xFFE1 || keysym == 0xFFE2 || keysym == 0xFFE3 || keysym == 0xFFE4 || keysym
        == 0xFFE5 || keysym == 0xFFE7 || keysym == 0xFFE8 || keysym == 0xFFE9 || keysym == 0xFFEA
        || keysym == 0xFFEB || keysym == 0xFFEC || keysym == 0xFF7F
}

/// What Escape does in vim mode.
#[derive(Debug, Clone, Copy, PartialEq, Eq, Structural)]
pub enum VimEscape {
    /// Nothing beyond the key itself.
    Ignore,
    /// Type out any text being composed, switch Vietnamese typing off and,
    /// with per-window state, remember that for the active window.
    SwitchOff { save_window_state: bool },
}

/// The X11 front end's decision for a key press: Escape (`is_escape`) in
/// vim mode while Vietnamese typing is on switches it off; the key itself
/// is handled as usual afterwards.
pub fn vim_escape(is_escape: bool, vim_mode: bool, enabled: bool, per_window_state: bool) -> (r:
    VimEscape)
    ensures
        r == (if is_escape && vim_mode && enabled {
            VimEscape::SwitchOff { save_window_state: per_window_state }
        } else {
            VimEscape::Ignore
        }),
{
    if is_escape && vim_mode && enabled {
        VimEscape::SwitchOff { save_window_state: per_window_state }
    } else {
        VimEscape::Ignore
    }
}

/// Where a key press goes.
#[derive(Debug, Clone, Copy, PartialEq, Eq)]
pub enum DirectPress {
    /// The on/off hotkey: commit any text being composed if Vietnamese
    /// typing was on, flip it, and swallow the key.
    Toggle,
    /// Vietnamese typing is off: the key goes to the application.
    PassThrough,
    /// Feed this character to the engine.
    Feed(char),
    /// A modifier key: it goes to the application and the word stays open.
    PassModifier,
    /// Another key without a character (arrows, Home, function keys):
    /// commit the word, then the key goes to the application.
    FlushAndPass,
}

/// The route of a key press: hotkey first, then typing off, then the key's
/// character, then modifier keys.
pub open spec fn spec_route_direct_press(
    is_toggle: bool,
    enabled: bool,
    ch: Option<char>,
    keysym: u32,
) -> DirectPress {
    if is_toggle {
        DirectPress::Toggle
    } else if !enabled {
        DirectPress::PassThrough
    } else if ch is Some {
        DirectPress::Feed(ch->0)
    } else if spec_is_modifier_keysym(keysym) {
        DirectPress::PassModifier
    } else {
        DirectPress::FlushAndPass
    }
}

/// Decides where a key press goes: `is_toggle` whether it is the hotkey,
/// `enabled` whether Vietnamese typing is on, `ch` the character the key
/// types (if any), `keysym` its keysym.
pub fn route_direct_press(is_toggle: bool, enabled: bool, ch: Option<char>, keysym: u32) -> (r:
    DirectPress)
    ensures
        r == spec_route_direct_press(is_toggle, enabled, ch, keysym),
{
    if is_toggle {
        DirectPress::Toggle
    } else if !enabled {
        DirectPress::PassThrough
    } else {
        match ch {
            Some(c) => DirectPress::Feed(c),
            None => if is_modifier_keysym(keysym) {
                DirectPress::PassModifier
            } else {
                DirectPress::FlushAndPass
            },
        }
    }
}

/// What the Wayland input method sends for an engine answer, in this order:
/// delete text before the cursor (a byte count), set the text being
/// composed, commit text, then let the key through or swallow it.
#[derive(Debug, Clone, Copy, PartialEq, Eq)]
pub struct WaylandPlan {
    pub delete_before: Option<usize>,
    pub preedit: Option<CharBuffer>,
    pub commit: Option<CharBuffer>,
    pub pass_key: bool,
}

/// The plan for each engine answer: a preedit is shown, a commit sent; a
/// recompose deletes the committed word's bytes and shows its new text
/// unless that is empty; the key goes through only when the answer says so.
pub open spec fn spec_wayland_plan(action: Action) -> WaylandPlan {
    match action {
        Action::Preedit(b) => WaylandPlan {
            delete_before: None,
            preedit: Some(b),
            commit: None,
            pass_key: false,
        },
        Action::Commit(b) => WaylandPlan {
            delete_before: None,
            preedit: None,
            commit: Some(b),
            pass_key: false,
        },
        Action::CommitAndPassThrough(b) => WaylandPlan {
            delete_before: None,
            preedit: None,
            commit: Some(b),
            pass_key: true,
        },
        Action::PassThrough => WaylandPlan {
            delete_before: None,
            preedit: None,
            commit: None,
            pass_key: true,
        },
        Action::SurroundingRecompose { preedit, delete_byte_len, .. } => WaylandPlan {
            delete_before: Some(delete_byte_len),
            preedit: if preedit@.len() == 0 { None } else { Some(preedit) },
            commit: None,
            pass_key: false,
        },
    }
}

pub fn wayland_plan(action: &Action) -> (r: WaylandPlan)
    ensures
        r == spec_wayland_plan(*action),
{
    match action {
        Action::Preedit(b) => WaylandPlan {
            delete_before: None,
            preedit: Some(*b),
            commit: None,
            pass_key: false,
        },
        Action::Commit(b) => WaylandPlan {
            delete_before: None,
            preedit: None,
            commit: Some(*b),
            pass_key: false,
        },
        Action::CommitAndPassThrough(b) => WaylandPlan {
            delete_before: None,
            preedit: None,
            commit: Some(*b),
            pass_key: true,
        },
        Action::PassThrough => WaylandPlan {
            delete_before: None,
            preedit: None,
            commit: None,
            pass_key: true,
        },
        Action::SurroundingRecompose { preedit, delete_byte_len, .. } => WaylandPlan {
            delete_before: Some(*delete_byte_len),
            preedit: if preedit.is_empty() {
                None
            } else {
                Some(*preedit)
            },
            commit: None,
            pass_key: false,
        },
    }
}

/// Text typed into an X11 application: `backspaces` Backspace presses,
/// then `text` pasted.
#[derive(Debug, Clone, Copy, PartialEq, Eq)]
pub struct Injection {
    pub text: CharBuffer,
    pub backspaces: usize,
}

/// What the X11 front end does for an engine answer: type some text, then
/// let the key through or swallow it.
#[derive(Debug, Clone, Copy, PartialEq, Eq)]
pub struct X11Plan {
    pub inject: Option<Injection>,
    pub pass_key: bool,
}

/// X11 applications see the text being composed as real text: the front end
/// remembers how many characters of it are on screen, to erase them before
/// typing their replacement.
#[derive(Debug, Clone, Copy, PartialEq, Eq)]
pub struct ClipboardTyping {
    /// Characters of the text being composed that are on screen.
    pub preedit_len: usize,
}

/// The plan for an engine answer, and how many characters of composed text
/// are on screen afterwards. Composed or committed text replaces what is
/// on screen; a recompose erases the committed word instead.
pub open spec fn spec_x11_plan(preedit_len: usize, action: Action) -> (X11Plan, usize) {
    match action {
        Action::Preedit(b) => (
            X11Plan { inject: Some(Injection { text: b, backspaces: preedit_len }), pass_key: false },
            b@.len() as usize,
        ),
        Action::Commit(b) => (
            X11Plan { inject: Some(Injection { text: b, backspaces: preedit_len }), pass_key: false },
            0,
        ),
        Action::CommitAndPassThrough(b) => (
            X11Plan { inject: Some(Injection { text: b, backspaces: preedit_len }), pass_key: true },
            0,
        ),
        Action::PassThrough => (X11Plan { inject: None, pass_key: true }, 0),
        Action::SurroundingRecompose { preedit, delete_count, .. } => (
            X11Plan {
                inject: Some(Injection { text: preedit, backspaces: delete_count }),
                pass_key: false,
            },
            preedit@.len() as usize,
        ),
    }
}

impl ClipboardTyping {
    /// Nothing composed is on screen.
    pub fn new() -> (r: Self)
        ensures
            r.preedit_len == 0,
    {
        ClipboardTyping { preedit_len: 0 }
    }

    /// Forgets the composed text on screen (it was committed, or focus moved).
    pub fn forget(&mut self)
        ensures
            final(self).preedit_len == 0,
    {
        self.preedit_len = 0;
    }

    /// The plan for the engine's answer to a fed key.
    pub fn plan_action(&mut self, action: &Action) -> (r: X11Plan)
        ensures
            (r, final(self).preedit_len) == spec_x11_plan(old(self).preedit_len, *action),
    {
        match action {
            Action::Preedit(b) => {
                let plan = X11Plan {
                    inject: Some(Injection { text: *b, backspaces: self.preedit_len }),
                    pass_key: false,
                };
                self.preedit_len = b.len();
                plan
            },
            Action::Commit(b) => {
                let plan = X11Plan {
                    inject: Some(Injection { text: *b, backspaces: self.preedit_len }),
                    pass_key: false,
                };
                self.preedit_len = 0;
                plan
            },
            Action::CommitAndPassThrough(b) => {
                let plan = X11Plan {
                    inject: Some(Injection { text: *b, backspaces: self.preedit_len }),
                    pass_key: true,
                };
                self.preedit_len = 0;
                plan
            },
            Action::PassThrough => {
                self.preedit_len = 0;
                X11Plan { inject: None, pass_key: true }
            },
            Action::SurroundingRecompose { preedit, delete_count, .. } => {
                self.preedit_len = preedit.len();
                X11Plan {
                    inject: Some(Injection { text: *preedit, backspaces: *delete_count }),
                    pass_key: false,
                }
            },
        }
    }

    /// The text to type when the engine is flushed (navigation keys, vim
    /// Escape): a flushed word replaces the composed text on screen.
    pub fn plan_flush(&mut self, flushed: Option<Action>) -> (r: Option<Injection>)
        ensures
            final(self).preedit_len == 0,
            r == match flushed {
                Some(Action::Commit(b)) => Some(
                    Injection { text: b, backspaces: old(self).preedit_len },
                ),
                _ => None,
            },
    {
        let r = match flushed {
            Some(Action::Commit(b)) => Some(Injection { text: b, backspaces: self.preedit_len }),
            _ => None,
        };
        self.preedit_len = 0;
        r
    }

    /// The text to type when the hotkey commits the word: it is typed
    /// without erasing anything first.
    pub fn plan_toggle(&mut self, flushed: Option<Action>) -> (r: Option<Injection>)
        ensures
            final(self).preedit_len == 0,
            r == match flushed {
                Some(Action::Commit(b)) => Some(Injection { text: b, backspaces: 0 }),
                _ => None,
            },
    {
        self.preedit_len = 0;
        match flushed {
            Some(Action::Commit(b)) => Some(Injection { text: b, backspaces: 0 }),
            _ => None,
        }
    }
}

/// Keys whose press was swallowed: their release is swallowed too, other
/// releases go to the application.
pub struct InterceptedKeys {
    keys: HashSet<u32>,
}

impl InterceptedKeys {
    /// The swallowed keys whose release is still to come.
    pub closed spec fn pending(&self) -> Set<u32> {
        self.keys@
    }

    pub fn new() -> (r: Self)
        ensures
            r.pending() == Set::<u32>::empty(),
    {
        InterceptedKeys { keys: HashSet::new() }
    }

    /// Records that the press of `key` was swallowed.
    pub fn intercept(&mut self, key: u32)
        ensures
            final(self).pending() == old(self).pending().insert(key),
    {
        self.keys.insert(key);
    }

    /// Handles the release of `key`: swallowed (`true`) when its press was.
    pub fn release(&mut self, key: u32) -> (r: bool)
        ensures
            r == old(self).pending().contains(key),
            final(self).pending() == old(self).pending().remove(key),
    {
        self.keys.remove(&key)
    }
}

/// A swallowed press makes its release swallowed, once: after `intercept`
/// of a key, its `release` answers `true`, a second release answers
/// `false`, and the other keys are as they were.
pub proof fn lemma_release_after_intercept(
    before: InterceptedKeys,
    intercepted: InterceptedKeys,
    released: InterceptedKeys,
    key: u32,
    other: u32,
)
    requires
        intercepted.pending() == before.pending().insert(key),
        released.pending() == intercepted.pending().remove(key),
        other != key,
    ensures
        intercepted.pending().contains(key),
        !released.pending().contains(key),
        released.pending().contains(other) == before.pending().contains(other),
{
}

} // verus!
