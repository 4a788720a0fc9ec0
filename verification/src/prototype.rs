//! The first, minimal engine: lowercase Telex with five rules (`as`, `af`,
//! `aw`, `oo`, `dd`) and a plain syllable check that undoes a rule whose
//! result is no Vietnamese syllable.

use vstd::prelude::*;
use crate::buffer::{push16, CharBuffer};
use crate::letters::{ascii_lower, is_ascii_alphabetic, spec_ascii_lower, spec_is_ascii_alphabetic};
use crate::telex::is_lower_vowel;
use crate::validation::{consume_coda, consume_initial, spec_consume_coda, spec_consume_initial};

verus! {

broadcast use CharBuffer::lemma_view;

/// Number of lowercase vowels of `s` in a row from `cur`.
pub open spec fn plain_vowel_run(s: Seq<char>, cur: int) -> int
    decreases s.len() - cur,
{
    if 0 <= cur < s.len() && is_lower_vowel(s[cur]) {
        1 + plain_vowel_run(s, cur + 1)
    } else {
        0
    }
}

/// `s` is an optional initial consonant, lowercase vowels and an optional
/// final, with nothing left over; matching is exact, so uppercase letters
/// never match.
pub open spec fn spec_is_plain_syllable(s: Seq<char>) -> bool {
    if s.len() == 0 {
        true
    } else {
        let c0 = spec_consume_initial(s, 0);
        let c1 = c0 + plain_vowel_run(s, c0);
        spec_consume_coda(s, c1) == s.len()
    }
}

proof fn lemma_plain_vowel_run_bound(s: Seq<char>, cur: int)
    requires
        0 <= cur <= s.len(),
    ensures
        0 <= plain_vowel_run(s, cur) <= s.len() - cur,
    decreases s.len() - cur,
{
    if cur < s.len() && is_lower_vowel(s[cur]) {
        lemma_plain_vowel_run_bound(s, cur + 1);
    }
}

fn is_plain_vowel(c: char) -> (r: bool)
    ensures
        r == is_lower_vowel(c),
{
    matches!(
        c,
        'a' | 'ă' | 'â' | 'e' | 'ê' | 'i' | 'o' | 'ô' | 'ơ' | 'u' | 'ư' | 'y'
        | 'á' | 'à' | 'ả' | 'ã' | 'ạ' | 'ắ' | 'ằ' | 'ẳ' | 'ẵ' | 'ặ' | 'ấ' | 'ầ'
        | 'ẩ' | 'ẫ' | 'ậ' | 'é' | 'è' | 'ẻ' | 'ẽ' | 'ẹ' | 'ế' | 'ề' | 'ể' | 'ễ'
        | 'ệ' | 'í' | 'ì' | 'ỉ' | 'ĩ' | 'ị' | 'ó' | 'ò' | 'ỏ' | 'õ' | 'ọ' | 'ố'
        | 'ồ' | 'ổ' | 'ỗ' | 'ộ' | 'ớ' | 'ờ' | 'ở' | 'ỡ' | 'ợ' | 'ú' | 'ù' | 'ủ'
        | 'ũ' | 'ụ' | 'ứ' | 'ừ' | 'ử' | 'ữ' | 'ự' | 'ý' | 'ỳ' | 'ỷ' | 'ỹ' | 'ỵ'
    )
}

/// Whether `chars` is one syllable: one initial consonant (longest match),
/// all the lowercase vowels that follow, then one final (longest match),
/// with nothing left over.
pub fn is_valid_vietnamese_syllable(chars: &[char]) -> (r: bool)
    ensures
        r == spec_is_plain_syllable(chars@),
{
    if chars.len() == 0 {
        return true;
    }
    let len = chars.len();
    let mut cursor = consume_initial(chars, 0);
    let start = cursor;
    proof {
        lemma_plain_vowel_run_bound(chars@, start as int);
    }
    while cursor < len && is_plain_vowel(chars[cursor])
        invariant
            len == chars@.len(),
            start <= cursor <= len,
            plain_vowel_run(chars@, start as int) == (cursor - start) + plain_vowel_run(
                chars@,
                cursor as int,
            ),
        decreases len - cursor,
    {
        cursor = cursor + 1;
    }
    cursor = consume_coda(chars, cursor);
    cursor == len
}

/// Whether a word is being composed.
#[derive(Debug, Clone, Copy, PartialEq, Eq, Structural)]
pub enum State {
    Idle,
    Composing,
}

/// What the front end does with a key press.
#[derive(Debug, Clone, Copy, PartialEq, Eq)]
pub enum Action {
    /// Show the buffer as the text being composed.
    Preedit(CharBuffer),
    /// Insert the buffer as final text.
    Commit(CharBuffer),
    /// Let the key through untouched.
    PassThrough,
}

/// An action with its buffer taken as its characters.
pub enum ActionView {
    Preedit(Seq<char>),
    Commit(Seq<char>),
    PassThrough,
}

impl Action {
    pub open spec fn view(self) -> ActionView {
        match self {
            Action::Preedit(b) => ActionView::Preedit(b@),
            Action::Commit(b) => ActionView::Commit(b@),
            Action::PassThrough => ActionView::PassThrough,
        }
    }
}

/// The state, the composed text and the keys typed for it.
pub struct Model {
    pub state: State,
    pub buffer: Seq<char>,
    pub raw: Seq<char>,
}

/// The five rules: the letter a key turns the previous letter into.
pub open spec fn rule_result(last: char, next: char) -> Option<char> {
    match (last, next) {
        ('a', 's') => Some('á'),
        ('a', 'f') => Some('à'),
        ('a', 'w') => Some('ă'),
        ('o', 'o') => Some('ô'),
        ('d', 'd') => Some('đ'),
        _ => None,
    }
}

/// One key on the composed text: a rule replaces the last letter when the
/// result is still a syllable; otherwise the key is appended.
pub open spec fn spec_apply_rule(buf: Seq<char>, next: char) -> Seq<char> {
    if buf.len() > 0 && rule_result(buf.last(), next) is Some {
        let replaced = buf.drop_last().push(rule_result(buf.last(), next)->0);
        if spec_is_plain_syllable(replaced) {
            replaced
        } else {
            push16(buf, next)
        }
    } else {
        push16(buf, next)
    }
}

/// The text composed from the keys `raw`, one key after the other.
pub open spec fn spec_compose(raw: Seq<char>) -> Seq<char>
    decreases raw.len(),
{
    if raw.len() == 0 {
        Seq::empty()
    } else {
        spec_apply_rule(spec_compose(raw.drop_last()), raw.last())
    }
}

pub open spec fn spec_reset(m: Model) -> Model {
    Model { state: State::Idle, buffer: Seq::empty(), raw: Seq::empty() }
}

/// Backspace: while composing, drops the last key and recomposes; the word
/// is dropped with its last key.
pub open spec fn spec_backspace(m: Model) -> (Model, ActionView) {
    if m.state == State::Idle {
        (m, ActionView::PassThrough)
    } else {
        let raw = if m.raw.len() == 0 { m.raw } else { m.raw.drop_last() };
        if raw.len() == 0 {
            (spec_reset(m), ActionView::Preedit(Seq::empty()))
        } else {
            let buf = spec_compose(raw);
            (Model { buffer: buf, raw, ..m }, ActionView::Preedit(buf))
        }
    }
}

/// Space or Enter: commits the word followed by the key, when there is room.
pub open spec fn spec_commit(m: Model, key: char) -> (Model, ActionView) {
    if m.state == State::Idle {
        (m, ActionView::PassThrough)
    } else {
        (spec_reset(m), ActionView::Commit(push16(m.buffer, key)))
    }
}

/// A letter (taken in lowercase): starts or continues the word; a full
/// buffer is committed first and the letter starts a new word.
pub open spec fn spec_letter(m: Model, c: char) -> (Model, ActionView) {
    let c = spec_ascii_lower(c);
    if m.state == State::Composing && (m.buffer.len() == 16 || m.raw.len() == 16) {
        let raw = seq![c];
        (
            Model { state: State::Composing, buffer: spec_compose(raw), raw },
            ActionView::Commit(m.buffer),
        )
    } else {
        let raw = push16(m.raw, c);
        let buf = spec_compose(raw);
        (Model { state: State::Composing, buffer: buf, raw }, ActionView::Preedit(buf))
    }
}

/// The engine's answer to a key and its state after it.
pub open spec fn spec_process_key(m: Model, key: char) -> (Model, ActionView) {
    if key == '\x08' || key == '\x7f' {
        spec_backspace(m)
    } else if key == ' ' || key == '\n' || key == '\r' {
        spec_commit(m, key)
    } else if spec_is_ascii_alphabetic(key) {
        spec_letter(m, key)
    } else if m.state == State::Composing {
        (spec_reset(m), ActionView::Commit(m.buffer))
    } else {
        (m, ActionView::PassThrough)
    }
}

/// Idle with nothing held, or composing a non-empty run of keys whose
/// composed text is the buffer.
pub open spec fn spec_consistent(m: Model) -> bool {
    &&& m.state == State::Idle ==> m.raw.len() == 0 && m.buffer.len() == 0
    &&& m.state == State::Composing ==> m.raw.len() > 0
    &&& m.buffer == spec_compose(m.raw)
}

/// The minimal composing engine.
pub struct Engine {
    pub state: State,
    pub buffer: CharBuffer,
    pub raw_buffer: CharBuffer,
}

impl Default for Engine {
    fn default() -> (r: Self)
        ensures
            r.model() == (Model { state: State::Idle, buffer: Seq::empty(), raw: Seq::empty() }),
    {
        Self::new()
    }
}

impl Engine {
    pub open spec fn model(&self) -> Model {
        Model { state: self.state, buffer: self.buffer@, raw: self.raw_buffer@ }
    }

    /// Idle, with nothing composed.
    pub fn new() -> (r: Self)
        ensures
            r.model() == (Model { state: State::Idle, buffer: Seq::empty(), raw: Seq::empty() }),
    {
        Self { state: State::Idle, buffer: CharBuffer::new(), raw_buffer: CharBuffer::new() }
    }

    /// Answers one key press: Backspace and Delete edit the word, Space and
    /// Enter commit it, letters compose, other keys commit the word.
    pub fn process_key(&mut self, key: char) -> (r: Action)
        ensures
            (final(self).model(), r.view()) == spec_process_key(old(self).model(), key),
    {
        if key == '\x08' || key == '\x7f' {
            self.handle_backspace()
        } else if key == ' ' || key == '\n' || key == '\r' {
            self.handle_commit(key)
        } else if is_ascii_alphabetic(key) {
            self.handle_char(key)
        } else if self.state == State::Composing {
            let commit_action = Action::Commit(self.buffer);
            self.reset();
            commit_action
        } else {
            Action::PassThrough
        }
    }

    fn handle_backspace(&mut self) -> (r: Action)
        ensures
            (final(self).model(), r.view()) == spec_backspace(old(self).model()),
    {
        if self.state == State::Idle {
            return Action::PassThrough;
        }
        self.raw_buffer.pop();
        if self.raw_buffer.is_empty() {
            self.reset();
            return Action::Preedit(CharBuffer::new());
        }
        self.rebuild_buffer();
        Action::Preedit(self.buffer)
    }

    fn handle_commit(&mut self, trigger_key: char) -> (r: Action)
        ensures
            (final(self).model(), r.view()) == spec_commit(old(self).model(), trigger_key),
    {
        if self.state == State::Idle {
            return Action::PassThrough;
        }
        if !self.buffer.is_full() {
            self.buffer.push(trigger_key);
        }
        let action = Action::Commit(self.buffer);
        self.reset();
        action
    }

    fn handle_char(&mut self, c: char) -> (r: Action)
        ensures
            (final(self).model(), r.view()) == spec_letter(old(self).model(), c),
    {
        let c = ascii_lower(c);
        if self.state == State::Idle {
            self.state = State::Composing;
        } else if self.buffer.is_full() || self.raw_buffer.is_full() {
            let commit_action = Action::Commit(self.buffer);
            self.reset();
            self.state = State::Composing;
            self.raw_buffer.push(c);
            proof {
                assert(self.raw_buffer@ =~= seq![c]);
            }
            self.rebuild_buffer();
            return commit_action;
        }
        self.raw_buffer.push(c);
        self.rebuild_buffer();
        Action::Preedit(self.buffer)
    }

    fn reset(&mut self)
        ensures
            final(self).model() == spec_reset(old(self).model()),
    {
        self.state = State::Idle;
        self.buffer.clear();
        self.raw_buffer.clear();
    }

    /// Recomposes the buffer from the raw keys.
    fn rebuild_buffer(&mut self)
        ensures
            final(self).state == old(self).state,
            final(self).raw_buffer@ == old(self).raw_buffer@,
            final(self).buffer@ == spec_compose(old(self).raw_buffer@),
    {
        self.buffer.clear();
        let raw = self.raw_buffer;
        let len = raw.len();
        let mut i: usize = 0;
        while i < len
            invariant
                len == raw@.len(),
                i <= len,
                raw@ == old(self).raw_buffer@,
                self.raw_buffer@ == old(self).raw_buffer@,
                self.state == old(self).state,
                self.buffer@ == spec_compose(raw@.take(i as int)),
            decreases len - i,
        {
            let next = raw.as_slice()[i];
            proof {
                assert(raw@.take(i + 1).drop_last() =~= raw@.take(i as int));
            }
            self.apply_telex_rule(next);
            i = i + 1;
        }
        proof {
            assert(raw@.take(len as int) =~= raw@);
        }
    }

    /// Applies one key to the buffer.
    fn apply_telex_rule(&mut self, next_char: char)
        ensures
            final(self).state == old(self).state,
            final(self).raw_buffer@ == old(self).raw_buffer@,
            final(self).buffer@ == spec_apply_rule(old(self).buffer@, next_char),
    {
        let last_char = self.buffer.last();
        let new_char = match (last_char, next_char) {
            (Some('a'), 's') => Some('á'),
            (Some('a'), 'f') => Some('à'),
            (Some('a'), 'w') => Some('ă'),
            (Some('o'), 'o') => Some('ô'),
            (Some('d'), 'd') => Some('đ'),
            _ => None,
        };
        match new_char {
            None => {
                self.buffer.push(next_char);
            },
            Some(c) => {
                let old_char = last_char.unwrap();
                self.buffer.replace_last(c);
                proof {
                    assert(self.buffer@ =~= old(self).buffer@.drop_last().push(c));
                }
                if !is_valid_vietnamese_syllable(self.buffer.as_slice()) {
                    self.buffer.replace_last(old_char);
                    proof {
                        assert(self.buffer@ =~= old(self).buffer@);
                    }
                    self.buffer.push(next_char);
                }
            },
        }
    }
}

/// Every key keeps the engine consistent: idle with nothing held, or
/// composing a non-empty run of keys whose composed text is the buffer.
pub proof fn lemma_process_key_keeps_consistent(m: Model, key: char)
    requires
        spec_consistent(m),
    ensures
        spec_consistent(spec_process_key(m, key).0),
{
}

/// Backspace right after a letter takes the letter back: state, text and
/// keys are as they were before it (while the word has room for it).
pub proof fn lemma_backspace_undoes_letter(m: Model, c: char)
    requires
        spec_consistent(m),
        m.state == State::Composing,
        m.raw.len() < 16,
        m.buffer.len() < 16,
        spec_is_ascii_alphabetic(c),
    ensures
        spec_process_key(spec_process_key(m, c).0, '\x08').0 == m,
{
    let lc = spec_ascii_lower(c);
    assert(m.raw.push(lc).drop_last() =~= m.raw);
}

} // verus!
