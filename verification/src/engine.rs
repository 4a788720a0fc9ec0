//! The composing engine: turns key presses into preedit, commit and
//! pass-through actions for Telex, VNI and VIQR.

use vstd::prelude::*;
use crate::buffer::{push16, CharBuffer};
use crate::compose::{
    fallback_fits, lemma_rebuild_lengths, lemma_rebuild_spell_checked, opt_view, rebuild_buffer, spec_rebuild, viqr_digit, viqr_mark_digit, Work,
};
use crate::validation::{lemma_syllable_length, spec_is_valid_syllable};
use crate::letters::{
    is_ascii_alphabetic, is_ascii_digit, spec_is_ascii_alphabetic, spec_is_ascii_digit,
    spec_utf8_len, utf8_len,
};

verus! {

broadcast use CharBuffer::lemma_view;

/// Whether a word is being composed.
#[derive(Debug, Clone, Copy, PartialEq, Eq, Structural)]
pub enum State {
    Idle,
    Composing,
}

/// What the front end does with a key press.
#[derive(Debug, Clone, Copy, PartialEq, Eq)]
pub enum Action {
    /// Show the buffer as the text being composed.
    Preedit(CharBuffer),
    /// Insert the buffer as final text.
    Commit(CharBuffer),
    /// Insert the buffer, then let the key itself through.
    CommitAndPassThrough(CharBuffer),
    /// Let the key through untouched.
    PassThrough,
    /// Delete the last committed word (`delete_count` characters,
    /// `delete_byte_len` bytes) and compose `preedit` in its place.
    SurroundingRecompose { preedit: CharBuffer, delete_count: usize, delete_byte_len: usize },
}

/// Typing method.
#[derive(Debug, Clone, Copy, PartialEq, Eq, Structural)]
pub enum InputMethod {
    Telex,
    Vni,
    Viqr,
}

/// The method after `m` in the cycle Telex → VNI → VIQR → Telex.
pub open spec fn spec_next_method(m: InputMethod) -> InputMethod {
    match m {
        InputMethod::Telex => InputMethod::Vni,
        InputMethod::Vni => InputMethod::Viqr,
        InputMethod::Viqr => InputMethod::Telex,
    }
}

/// The number under which front ends share the method: Telex 0, VNI 1,
/// VIQR 2.
pub open spec fn spec_method_number(m: InputMethod) -> u8 {
    match m {
        InputMethod::Telex => 0,
        InputMethod::Vni => 1,
        InputMethod::Viqr => 2,
    }
}

/// The method of number `n`; an unknown number means Telex.
pub open spec fn spec_method_of_number(n: u8) -> InputMethod {
    if n == 1 {
        InputMethod::Vni
    } else if n == 2 {
        InputMethod::Viqr
    } else {
        InputMethod::Telex
    }
}

/// The method's name in the settings file.
pub open spec fn spec_method_name(m: InputMethod) -> Seq<char> {
    match m {
        InputMethod::Telex => seq!['t', 'e', 'l', 'e', 'x'],
        InputMethod::Vni => seq!['v', 'n', 'i'],
        InputMethod::Viqr => seq!['v', 'i', 'q', 'r'],
    }
}

/// The method the cycle hotkey switches to.
pub fn next_input_method(m: InputMethod) -> (r: InputMethod)
    ensures
        r == spec_next_method(m),
{
    match m {
        InputMethod::Telex => InputMethod::Vni,
        InputMethod::Vni => InputMethod::Viqr,
        InputMethod::Viqr => InputMethod::Telex,
    }
}

/// The method's number; see [`spec_method_number`].
pub fn method_number(m: InputMethod) -> (r: u8)
    ensures
        r == spec_method_number(m),
{
    match m {
        InputMethod::Telex => 0,
        InputMethod::Vni => 1,
        InputMethod::Viqr => 2,
    }
}

/// The method of a number; see [`spec_method_of_number`].
pub fn method_of_number(n: u8) -> (r: InputMethod)
    ensures
        r == spec_method_of_number(n),
{
    if n == 1 {
        InputMethod::Vni
    } else if n == 2 {
        InputMethod::Viqr
    } else {
        InputMethod::Telex
    }
}

/// The method's name in the settings file: `telex`, `vni` or `viqr`.
pub fn method_name(m: InputMethod) -> (r: &'static str)
    ensures
        r@ == spec_method_name(m),
{
    proof {
        reveal_strlit("telex");
        reveal_strlit("vni");
        reveal_strlit("viqr");
    }
    match m {
        InputMethod::Telex => "telex",
        InputMethod::Vni => "vni",
        InputMethod::Viqr => "viqr",
    }
}

/// Three presses of the cycle hotkey come back to the method they started
/// from, and each press changes the method.
pub proof fn lemma_cycle_returns(m: InputMethod)
    ensures
        spec_next_method(spec_next_method(spec_next_method(m))) == m,
        spec_next_method(m) != m,
{
}

/// A method survives being shared as its number.
pub proof fn lemma_method_number_round_trip(m: InputMethod)
    ensures
        spec_method_of_number(spec_method_number(m)) == m,
{
}

/// An action with its buffers taken as their characters.
pub enum ActionView {
    Preedit(Seq<char>),
    Commit(Seq<char>),
    CommitAndPassThrough(Seq<char>),
    PassThrough,
    SurroundingRecompose { preedit: Seq<char>, delete_count: nat, delete_byte_len: nat },
}

impl Action {
    pub open spec fn view(self) -> ActionView {
        match self {
            Action::Preedit(b) => ActionView::Preedit(b@),
            Action::Commit(b) => ActionView::Commit(b@),
            Action::CommitAndPassThrough(b) => ActionView::CommitAndPassThrough(b@),
            Action::PassThrough => ActionView::PassThrough,
            Action::SurroundingRecompose { preedit, delete_count, delete_byte_len } =>
                ActionView::SurroundingRecompose {
                preedit: preedit@,
                delete_count: delete_count as nat,
                delete_byte_len: delete_byte_len as nat,
            },
        }
    }
}

/// Everything the engine holds, as plain values.
pub struct EngineModel {
    pub method: InputMethod,
    pub state: State,
    /// The composed text.
    pub buffer: Seq<char>,
    /// The keys typed for it.
    pub raw: Seq<char>,
    pub spell_check: bool,
    /// Raw keys of the word committed last (for recomposing it).
    pub last_raw: Seq<char>,
    /// Text of the word committed last.
    pub last_text: Seq<char>,
    /// Saved Smart W alternative.
    pub fallback: Option<Seq<char>>,
    /// Keys are let through until the next space (set by `@`).
    pub pass_through: bool,
}

/// Composes Vietnamese text from key presses.
pub struct Engine {
    /// The typing method (read it with `get_input_method`, change it with
    /// `set_input_method`).
    pub current_method: InputMethod,
    pub state: State,
    pub buffer: CharBuffer,
    pub raw_buffer: CharBuffer,
    pub spell_check: bool,
    pub last_committed_raw: CharBuffer,
    pub last_committed_text: CharBuffer,
    /// Buffer with only `o → ơ` applied, saved when Smart W turns `uo` into
    /// `ươ`, to retry a later tone key on.
    pub uo_smart_fallback: Option<CharBuffer>,
    /// Set by `@`: while idle, letters and digits are let through.
    pub pass_through_until_space: bool,
}

/// Total UTF-8 length of `s` in bytes.
pub open spec fn utf8_byte_len(s: Seq<char>) -> nat
    decreases s.len(),
{
    if s.len() == 0 {
        0
    } else {
        utf8_byte_len(s.drop_last()) + spec_utf8_len(s.last())
    }
}

/// The engine back to idle with nothing composed and no Smart W alternative.
pub open spec fn spec_reset(e: EngineModel) -> EngineModel {
    EngineModel {
        state: State::Idle,
        buffer: Seq::empty(),
        raw: Seq::empty(),
        fallback: None,
        ..e
    }
}

/// The engine with its text recomposed from its raw keys.
pub open spec fn spec_rebuild_engine(e: EngineModel) -> EngineModel {
    let w = spec_rebuild(e.method, e.spell_check, Work { buf: e.buffer, raw: e.raw, fb: e.fallback });
    EngineModel { buffer: w.buf, raw: w.raw, fallback: w.fb, ..e }
}

/// Backspace: while composing, drops the last raw key; when idle right
/// after a commit, reopens the committed word without its last key.
pub open spec fn spec_backspace(e: EngineModel) -> (EngineModel, ActionView) {
    if e.state == State::Idle {
        if e.last_raw.len() > 0 {
            let dc = e.last_text.len();
            let dbl = utf8_byte_len(e.last_text);
            let lr = e.last_raw.drop_last();
            if lr.len() == 0 {
                (
                    EngineModel { last_raw: lr, last_text: Seq::empty(), ..e },
                    ActionView::SurroundingRecompose {
                        preedit: Seq::empty(),
                        delete_count: dc,
                        delete_byte_len: dbl,
                    },
                )
            } else {
                let e2 = spec_rebuild_engine(
                    EngineModel {
                        state: State::Composing,
                        raw: lr,
                        last_raw: Seq::empty(),
                        last_text: Seq::empty(),
                        ..e
                    },
                );
                (
                    e2,
                    ActionView::SurroundingRecompose {
                        preedit: e2.buffer,
                        delete_count: dc,
                        delete_byte_len: dbl,
                    },
                )
            }
        } else {
            (e, ActionView::PassThrough)
        }
    } else {
        let r = if e.raw.len() == 0 { e.raw } else { e.raw.drop_last() };
        if r.len() == 0 {
            (spec_reset(EngineModel { raw: r, ..e }), ActionView::Preedit(Seq::empty()))
        } else {
            let e2 = spec_rebuild_engine(EngineModel { raw: r, ..e });
            (e2, ActionView::Preedit(e2.buffer))
        }
    }
}

/// Space or newline `key`: commits the text with the key appended (if there
/// is room), remembering the word for recomposing.
pub open spec fn spec_commit(e: EngineModel, key: char) -> (EngineModel, ActionView) {
    if e.state == State::Idle {
        (e, ActionView::PassThrough)
    } else {
        let b = push16(e.buffer, key);
        (spec_reset(EngineModel { last_raw: e.raw, last_text: b, ..e }), ActionView::Commit(b))
    }
}

/// Letter or digit `c`: added to the raw keys and the text recomposed; a
/// full buffer is committed first.
pub open spec fn spec_handle_char(e: EngineModel, c: char) -> (EngineModel, ActionView) {
    if e.state == State::Idle {
        let e1 = EngineModel {
            state: State::Composing,
            last_raw: Seq::empty(),
            last_text: Seq::empty(),
            raw: push16(e.raw, c),
            ..e
        };
        let e2 = spec_rebuild_engine(e1);
        (e2, ActionView::Preedit(e2.buffer))
    } else if e.buffer.len() == 16 || e.raw.len() == 16 {
        let e1 = spec_reset(e);
        let e2 = spec_rebuild_engine(
            EngineModel { state: State::Composing, raw: push16(e1.raw, c), ..e1 },
        );
        (e2, ActionView::Commit(e.buffer))
    } else {
        let e2 = spec_rebuild_engine(EngineModel { raw: push16(e.raw, c), ..e });
        (e2, ActionView::Preedit(e2.buffer))
    }
}

/// One key press. Backspace, Space and newline do their own work; ASCII
/// letters and digits (and VIQR marks inside a word) are composed, except
/// that after `@` they are let through until the next Space, newline or
/// Backspace; any other key commits the word and goes through. `@` marks
/// the word before it as the local part of an address: that word is
/// committed as typed (its raw keys), not as composed.
pub open spec fn spec_process_key(e: EngineModel, key: char) -> (EngineModel, ActionView) {
    if key == '\x08' || key == '\x7f' {
        spec_backspace(EngineModel { pass_through: false, ..e })
    } else if key == ' ' || key == '\n' || key == '\r' {
        spec_commit(EngineModel { pass_through: false, ..e }, key)
    } else if spec_is_ascii_alphabetic(key) || spec_is_ascii_digit(key) || (e.method
        == InputMethod::Viqr && e.state == State::Composing && viqr_mark_digit(key) is Some) {
        if e.pass_through && e.state == State::Idle {
            (
                EngineModel { last_raw: Seq::empty(), last_text: Seq::empty(), ..e },
                ActionView::PassThrough,
            )
        } else {
            spec_handle_char(e, key)
        }
    } else {
        let pass = if key == '@' { true } else { e.pass_through };
        if e.state == State::Composing {
            (
                EngineModel { pass_through: pass, ..spec_reset(e) },
                ActionView::CommitAndPassThrough(if key == '@' { e.raw } else { e.buffer }),
            )
        } else {
            (
                EngineModel {
                    pass_through: pass,
                    last_raw: Seq::empty(),
                    last_text: Seq::empty(),
                    ..e
                },
                ActionView::PassThrough,
            )
        }
    }
}

impl Engine {
    /// The engine's state as plain values.
    pub open spec fn model(&self) -> EngineModel {
        EngineModel {
            method: self.current_method,
            state: self.state,
            buffer: self.buffer@,
            raw: self.raw_buffer@,
            spell_check: self.spell_check,
            last_raw: self.last_committed_raw@,
            last_text: self.last_committed_text@,
            fallback: opt_view(self.uo_smart_fallback),
            pass_through: self.pass_through_until_space,
        }
    }

    /// An idle engine with nothing composed.
    pub fn new(method: InputMethod, spell_check: bool) -> (r: Self)
        ensures
            r.model() == (EngineModel {
                method,
                state: State::Idle,
                buffer: Seq::empty(),
                raw: Seq::empty(),
                spell_check,
                last_raw: Seq::empty(),
                last_text: Seq::empty(),
                fallback: None,
                pass_through: false,
            }),
    {
        Self {
            current_method: method,
            state: State::Idle,
            buffer: CharBuffer::new(),
            raw_buffer: CharBuffer::new(),
            spell_check,
            last_committed_raw: CharBuffer::new(),
            last_committed_text: CharBuffer::new(),
            uo_smart_fallback: None,
            pass_through_until_space: false,
        }
    }

    pub fn get_input_method(&self) -> (r: InputMethod)
        ensures
            r == self.model().method,
    {
        self.current_method
    }

    /// Switches the typing method; text being composed is committed first.
    pub fn set_input_method(&mut self, method: InputMethod) -> (r: Option<Action>)
        ensures
            old(self).model().state == State::Composing ==> (r matches Some(a) && a.view()
                == ActionView::Commit(old(self).model().buffer)),
            old(self).model().state == State::Idle ==> r is None,
            final(self).model() == (EngineModel {
                method,
                last_raw: Seq::empty(),
                last_text: Seq::empty(),
                ..if old(self).model().state == State::Composing {
                    spec_reset(old(self).model())
                } else {
                    old(self).model()
                }
            }),
    {
        self.last_committed_raw.clear();
        self.last_committed_text.clear();
        if self.state == State::Composing {
            let commit_action = Action::Commit(self.buffer);
            self.reset();
            self.current_method = method;
            Some(commit_action)
        } else {
            self.current_method = method;
            None
        }
    }

    /// Handles one key press.
    pub fn process_key(&mut self, key: char) -> (r: Action)
        ensures
            (final(self).model(), r.view()) == spec_process_key(old(self).model(), key),
    {
        if key == '\x08' || key == '\x7f' {
            self.pass_through_until_space = false;
            self.handle_backspace()
        } else if key == ' ' || key == '\n' || key == '\r' {
            self.pass_through_until_space = false;
            self.handle_commit(key)
        } else if is_ascii_alphabetic(key) || is_ascii_digit(key) || (self.current_method
            == InputMethod::Viqr && self.state == State::Composing && viqr_digit(key).is_some()) {
            if self.pass_through_until_space && self.state == State::Idle {
                self.last_committed_raw.clear();
                self.last_committed_text.clear();
                return Action::PassThrough;
            }
            self.handle_char(key)
        } else {
            if self.state == State::Composing {
                let commit_action = if key == '@' {
                    Action::CommitAndPassThrough(self.raw_buffer)
                } else {
                    Action::CommitAndPassThrough(self.buffer)
                };
                self.reset();
                if key == '@' {
                    self.pass_through_until_space = true;
                }
                commit_action
            } else {
                if key == '@' {
                    self.pass_through_until_space = true;
                }
                self.last_committed_raw.clear();
                self.last_committed_text.clear();
                Action::PassThrough
            }
        }
    }

    fn rebuild(&mut self)
        ensures
            final(self).model() == spec_rebuild_engine(old(self).model()),
    {
        rebuild_buffer(
            self.current_method,
            self.spell_check,
            &mut self.buffer,
            &mut self.raw_buffer,
            &mut self.uo_smart_fallback,
        );
    }

    fn handle_backspace(&mut self) -> (r: Action)
        ensures
            (final(self).model(), r.view()) == spec_backspace(old(self).model()),
    {
        if self.state == State::Idle {
            if !self.last_committed_raw.is_empty() {
                let delete_count = self.last_committed_text.len();
                let delete_byte_len = utf8_byte_count(&self.last_committed_text);
                self.last_committed_raw.pop();
                if self.last_committed_raw.is_empty() {
                    self.last_committed_text.clear();
                    return Action::SurroundingRecompose {
                        preedit: CharBuffer::new(),
                        delete_count,
                        delete_byte_len,
                    };
                }
                self.state = State::Composing;
                self.raw_buffer = self.last_committed_raw;
                self.last_committed_raw.clear();
                self.last_committed_text.clear();
                self.rebuild();
                return Action::SurroundingRecompose {
                    preedit: self.buffer,
                    delete_count,
                    delete_byte_len,
                };
            }
            return Action::PassThrough;
        }
        self.raw_buffer.pop();
        if self.raw_buffer.is_empty() {
            self.reset();
            return Action::Preedit(CharBuffer::new());
        }
        self.rebuild();
        Action::Preedit(self.buffer)
    }

    fn handle_commit(&mut self, trigger_key: char) -> (r: Action)
        ensures
            (final(self).model(), r.view()) == spec_commit(old(self).model(), trigger_key),
    {
        if self.state == State::Idle {
            return Action::PassThrough;
        }
        self.last_committed_raw = self.raw_buffer;
        if !self.buffer.is_full() {
            self.buffer.push(trigger_key);
        }
        self.last_committed_text = self.buffer;
        let action = Action::Commit(self.buffer);
        self.reset();
        action
    }

    /// Adds letter or digit `c` to the word being composed (committing a
    /// full buffer first).
    pub fn handle_char(&mut self, c: char) -> (r: Action)
        ensures
            (final(self).model(), r.view()) == spec_handle_char(old(self).model(), c),
    {
        if self.state == State::Idle {
            self.state = State::Composing;
            self.last_committed_raw.clear();
            self.last_committed_text.clear();
        } else if self.buffer.is_full() || self.raw_buffer.is_full() {
            let commit_action = Action::Commit(self.buffer);
            self.reset();
            self.state = State::Composing;
            self.raw_buffer.push(c);
            self.rebuild();
            return commit_action;
        }
        self.raw_buffer.push(c);
        self.rebuild();
        Action::Preedit(self.buffer)
    }

    fn reset(&mut self)
        ensures
            final(self).model() == spec_reset(old(self).model()),
    {
        self.state = State::Idle;
        self.buffer.clear();
        self.raw_buffer.clear();
        self.uo_smart_fallback = None;
    }

    /// Forgets everything: composed text, raw keys, the last committed word,
    /// the Smart W alternative and the pass-through after `@`.
    pub fn reset_context(&mut self)
        ensures
            final(self).model() == (EngineModel {
                last_raw: Seq::empty(),
                last_text: Seq::empty(),
                pass_through: false,
                ..spec_reset(old(self).model())
            }),
    {
        self.state = State::Idle;
        self.buffer.clear();
        self.raw_buffer.clear();
        self.last_committed_raw.clear();
        self.last_committed_text.clear();
        self.uo_smart_fallback = None;
        self.pass_through_until_space = false;
    }

    /// Commits the text being composed without any trigger key (for
    /// navigation keys); the last committed word is forgotten either way.
    pub fn flush(&mut self) -> (r: Option<Action>)
        ensures
            old(self).model().state == State::Composing ==> (r matches Some(a) && a.view()
                == ActionView::Commit(old(self).model().buffer)),
            old(self).model().state == State::Idle ==> r is None,
            final(self).model() == (EngineModel {
                last_raw: Seq::empty(),
                last_text: Seq::empty(),
                ..if old(self).model().state == State::Composing {
                    spec_reset(old(self).model())
                } else {
                    old(self).model()
                }
            }),
    {
        if self.state == State::Composing {
            let action = Action::Commit(self.buffer);
            self.reset();
            self.last_committed_raw.clear();
            self.last_committed_text.clear();
            Some(action)
        } else {
            self.last_committed_raw.clear();
            self.last_committed_text.clear();
            None
        }
    }
}

impl Default for Engine {
    /// A Telex engine with the spell check on.
    fn default() -> (r: Self)
        ensures
            r.model() == (EngineModel {
                method: InputMethod::Telex,
                state: State::Idle,
                buffer: Seq::empty(),
                raw: Seq::empty(),
                spell_check: true,
                last_raw: Seq::empty(),
                last_text: Seq::empty(),
                fallback: None,
                pass_through: false,
            }),
    {
        Self::new(InputMethod::Telex, true)
    }
}

/// With the spell check on, the text being composed is a Vietnamese
/// syllable, or else exactly the keys typed.
pub open spec fn spell_consistent(e: EngineModel) -> bool {
    e.spell_check ==> spec_is_valid_syllable(e.buffer) || e.buffer == e.raw
}

/// Every key press keeps [`spell_consistent`]: with the spell check on, a
/// word that stops being Vietnamese falls back to the raw keys.
pub proof fn lemma_spell_check_kept(e: EngineModel, key: char)
    requires
        spell_consistent(e),
    ensures
        spell_consistent(spec_process_key(e, key).0),
{
    if e.spell_check {
        // Every path that changes the text recomposes it from some raw keys.
        assert forall|w2: Work| #![trigger spec_rebuild(e.method, true, w2)] true implies
            spec_is_valid_syllable(spec_rebuild(e.method, true, w2).buf) || (spec_rebuild(
                e.method,
                true,
                w2,
            ).buf == w2.raw && spec_rebuild(e.method, true, w2).raw == w2.raw) by {
            lemma_rebuild_spell_checked(e.method, w2);
        }
        lemma_syllable_length(Seq::<char>::empty());
    }
}

/// While idle nothing is composed: no text and no raw keys.
pub open spec fn idle_is_empty(e: EngineModel) -> bool {
    e.state == State::Idle ==> e.buffer.len() == 0 && e.raw.len() == 0
}

/// Every key press keeps [`idle_is_empty`].
pub proof fn lemma_idle_is_empty_kept(e: EngineModel, key: char)
    requires
        idle_is_empty(e),
    ensures
        idle_is_empty(spec_process_key(e, key).0),
{
}

/// The shape every engine keeps: idle means nothing composed and no raw
/// keys; composing means some text and some raw keys; no buffer holds more
/// than sixteen characters, nor a saved Smart W alternative.
pub open spec fn engine_shape(e: EngineModel) -> bool {
    &&& e.state == State::Idle ==> e.buffer.len() == 0 && e.raw.len() == 0
    &&& e.state == State::Composing ==> e.buffer.len() >= 1 && e.raw.len() >= 1
    &&& e.buffer.len() <= 16
    &&& e.raw.len() <= 16
    &&& e.last_raw.len() <= 16
    &&& fallback_fits(e.fallback)
}

/// A new engine has [`engine_shape`].
pub proof fn lemma_new_engine_shape(method: InputMethod, spell_check: bool)
    ensures
        engine_shape(
            EngineModel {
                method,
                state: State::Idle,
                buffer: Seq::empty(),
                raw: Seq::empty(),
                spell_check,
                last_raw: Seq::empty(),
                last_text: Seq::empty(),
                fallback: None,
                pass_through: false,
            },
        ),
{
}

/// Every key press keeps [`engine_shape`], and so do feeding a character
/// directly, resetting and forgetting the last committed word (what
/// switching the method, flushing and resetting the context do).
pub proof fn lemma_engine_shape_kept(e: EngineModel, key: char)
    requires
        engine_shape(e),
    ensures
        engine_shape(spec_process_key(e, key).0),
        engine_shape(spec_handle_char(e, key).0),
        engine_shape(spec_reset(e)),
        engine_shape(EngineModel { last_raw: Seq::empty(), last_text: Seq::empty(), ..e }),
{
    assert forall|e1: EngineModel| #![trigger spec_rebuild_engine(e1)]
        1 <= e1.raw.len() <= 16 && fallback_fits(e1.fallback) implies {
        let e2 = spec_rebuild_engine(e1);
        &&& 1 <= e2.buffer.len() <= 16
        &&& 1 <= e2.raw.len() <= 16
        &&& fallback_fits(e2.fallback)
    } by {
        lemma_rebuild_lengths(e1.method, e1.spell_check, Work { buf: e1.buffer, raw: e1.raw, fb: e1.fallback });
    }
}

/// The engine after the key presses `keys`, one after another.
pub open spec fn spec_run_keys(e: EngineModel, keys: Seq<char>) -> EngineModel
    decreases keys.len(),
{
    if keys.len() == 0 {
        e
    } else {
        spec_run_keys(spec_process_key(e, keys[0]).0, keys.drop_first())
    }
}

/// `k` ends the pass-through that `@` starts: Space, newline or a
/// Backspace.
pub open spec fn ends_pass_through(k: char) -> bool {
    k == ' ' || k == '\n' || k == '\r' || k == '\x08' || k == '\x7f'
}

/// After `@`, and after any keys that do not end the pass-through, the
/// engine composes nothing: it is idle with empty buffers, and every ASCII
/// letter or digit is let through untouched (no Telex, VNI or VIQR
/// composition until Space, newline or Backspace).
pub proof fn lemma_pass_through_after_at(e: EngineModel, keys: Seq<char>, c: char)
    requires
        idle_is_empty(e),
        forall|i: int| 0 <= i < keys.len() ==> !ends_pass_through(#[trigger] keys[i]),
        spec_is_ascii_alphabetic(c) || spec_is_ascii_digit(c),
    ensures
        ({
            let e2 = spec_run_keys(e, seq!['@'] + keys);
            &&& e2.pass_through
            &&& e2.state == State::Idle
            &&& e2.buffer.len() == 0
            &&& e2.raw.len() == 0
            &&& spec_process_key(e2, c).1 == ActionView::PassThrough
            &&& spec_process_key(e2, c).0.state == State::Idle
        }),
{
    let e1 = spec_process_key(e, '@').0;
    assert((seq!['@'] + keys).drop_first() =~= keys);
    lemma_pass_through_kept(e1, keys);
}

proof fn lemma_pass_through_kept(e: EngineModel, keys: Seq<char>)
    requires
        e.pass_through,
        e.state == State::Idle,
        e.buffer.len() == 0,
        e.raw.len() == 0,
        forall|i: int| 0 <= i < keys.len() ==> !ends_pass_through(#[trigger] keys[i]),
    ensures
        ({
            let e2 = spec_run_keys(e, keys);
            &&& e2.pass_through
            &&& e2.state == State::Idle
            &&& e2.buffer.len() == 0
            &&& e2.raw.len() == 0
        }),
    decreases keys.len(),
{
    if keys.len() > 0 {
        assert(!ends_pass_through(keys[0]));
        let rest = keys.drop_first();
        assert forall|i: int| 0 <= i < rest.len() implies !ends_pass_through(#[trigger] rest[i]) by {
            assert(rest[i] == keys[i + 1]);
        }
        lemma_pass_through_kept(spec_process_key(e, keys[0]).0, rest);
    }
}

/// Backspace right after a word was committed with Space or Enter deletes
/// the committed text (word and key) and composes the word again without its
/// last key.
pub proof fn lemma_backspace_after_commit(e: EngineModel, key: char)
    requires
        e.state == State::Composing,
        e.raw.len() > 0,
        key == ' ' || key == '\n' || key == '\r',
    ensures
        ({
            let (e1, a1) = spec_process_key(e, key);
            let committed = push16(e.buffer, key);
            let (e2, a2) = spec_process_key(e1, '\x08');
            let again = spec_rebuild(
                e.method,
                e.spell_check,
                Work { buf: Seq::empty(), raw: e.raw.drop_last(), fb: None },
            );
            &&& a1 == ActionView::Commit(committed)
            &&& e1.state == State::Idle
            &&& a2 == ActionView::SurroundingRecompose {
                preedit: if e.raw.len() == 1 { Seq::empty() } else { again.buf },
                delete_count: committed.len(),
                delete_byte_len: utf8_byte_len(committed),
            }
            &&& e.raw.len() > 1 ==> e2.state == State::Composing && e2.buffer == again.buf
        }),
{
}

proof fn lemma_utf8_byte_len_bound(s: Seq<char>)
    ensures
        utf8_byte_len(s) <= 4 * s.len(),
    decreases s.len(),
{
    if s.len() > 0 {
        lemma_utf8_byte_len_bound(s.drop_last());
    }
}

/// Total UTF-8 length of the characters in `b`.
fn utf8_byte_count(b: &CharBuffer) -> (r: usize)
    ensures
        r == utf8_byte_len(b@),
{
    let s = b.as_slice();
    let n = s.len();
    let mut total: usize = 0;
    let mut i: usize = 0;
    while i < n
        invariant
            n == s@.len(),
            s@ == b@,
            n <= 16,
            i <= n,
            total == utf8_byte_len(s@.take(i as int)),
        decreases n - i,
    {
        proof {
            lemma_utf8_byte_len_bound(s@.take(i as int));
            assert(s@.take(i as int + 1).drop_last() =~= s@.take(i as int));
        }
        total = total + utf8_len(s[i]);
        i = i + 1;
    }
    assert(s@.take(n as int) =~= s@);
    total
}

} // verus!
