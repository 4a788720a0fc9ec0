//! Abbreviations (`abbr.toml`): a word typed and committed with Space or
//! Enter is replaced by the text it stands for, such as `vn` by `Việt Nam`.

use vstd::prelude::*;
use crate::engine::{Action, ActionView};
use crate::text::{chars_of, string_of};

verus! {

/// The abbreviations as (word, text) pairs of characters.
pub open spec fn entries_view(entries: Seq<(String, String)>) -> Seq<(Seq<char>, Seq<char>)> {
    Seq::new(entries.len(), |i: int| (entries[i].0@, entries[i].1@))
}

/// Entry `i` is the first whose word is `word`.
pub open spec fn first_match(entries: Seq<(Seq<char>, Seq<char>)>, word: Seq<char>, i: int) -> bool {
    &&& 0 <= i < entries.len()
    &&& entries[i].0 == word
    &&& forall|j: int| 0 <= j < i ==> entries[j].0 != word
}

/// The text that `word` stands for: that of the first entry for it.
pub open spec fn abbreviation_of(entries: Seq<(Seq<char>, Seq<char>)>, word: Seq<char>) -> Option<
    Seq<char>,
> {
    if exists|i: int| first_match(entries, word, i) {
        let i = choose|i: int| first_match(entries, word, i);
        Some(entries[i].1)
    } else {
        None
    }
}

/// The key that ended a committed word, if the commit came from Space or
/// Enter.
pub open spec fn commit_key(text: Seq<char>) -> Option<char> {
    if text.len() > 0 && (text.last() == ' ' || text.last() == '\n' || text.last() == '\r') {
        Some(text.last())
    } else {
        None
    }
}

/// What a commit becomes under the abbreviations: a word committed with
/// Space or Enter that has an abbreviation is replaced by its text, followed
/// by the same key.
pub open spec fn spec_expand_commit(entries: Seq<(Seq<char>, Seq<char>)>, a: ActionView) -> Option<
    Seq<char>,
> {
    match a {
        ActionView::Commit(text) => match commit_key(text) {
            Some(k) => match abbreviation_of(entries, text.drop_last()) {
                Some(full) => Some(full.push(k)),
                None => None,
            },
            None => None,
        },
        _ => None,
    }
}

proof fn lemma_first_match_unique(entries: Seq<(Seq<char>, Seq<char>)>, word: Seq<char>, i: int, k: int)
    requires
        first_match(entries, word, i),
        first_match(entries, word, k),
    ensures
        i == k,
{
}

/// Whether `a` and `b` hold the same characters.
fn same_chars(a: &Vec<char>, b: &[char]) -> (r: bool)
    ensures
        r == (a@ == b@),
{
    if a.len() != b.len() {
        return false;
    }
    let mut i: usize = 0;
    while i < a.len()
        invariant
            a@.len() == b@.len(),
            i <= a@.len(),
            forall|j: int| 0 <= j < i ==> a@[j] == b@[j],
        decreases a@.len() - i,
    {
        if a[i] != b[i] {
            return false;
        }
        i = i + 1;
    }
    assert(a@ =~= b@);
    true
}

/// The text that `word` stands for, if any; see [`abbreviation_of`].
pub fn lookup_abbreviation(entries: &Vec<(String, String)>, word: &[char]) -> (r: Option<String>)
    ensures
        r matches Some(s) ==> abbreviation_of(entries_view(entries@), word@) == Some(s@),
        r is None ==> abbreviation_of(entries_view(entries@), word@) is None,
{
    let ghost es = entries_view(entries@);
    let mut i: usize = 0;
    while i < entries.len()
        invariant
            i <= entries@.len(),
            es == entries_view(entries@),
            forall|j: int| 0 <= j < i ==> es[j].0 != word@,
        decreases entries@.len() - i,
    {
        let key = chars_of(entries[i].0.as_str());
        if same_chars(&key, word) {
            proof {
                assert(first_match(es, word@, i as int));
                let k = choose|k: int| first_match(es, word@, k);
                lemma_first_match_unique(es, word@, i as int, k);
            }
            let full = chars_of(entries[i].1.as_str());
            return Some(string_of(&full));
        }
        i = i + 1;
    }
    proof {
        assert forall|k: int| !first_match(es, word@, k) by {
            if 0 <= k < es.len() {
                assert(es[k].0 != word@);
            }
        }
    }
    None
}

/// The text to insert in place of commit `action`; `None` when the action
/// is no commit by Space or Enter of a word with an abbreviation. See
/// [`spec_expand_commit`].
pub fn expand_commit(entries: &Vec<(String, String)>, action: &Action) -> (r: Option<String>)
    ensures
        r matches Some(s) ==> spec_expand_commit(entries_view(entries@), action.view()) == Some(
            s@,
        ),
        r is None ==> spec_expand_commit(entries_view(entries@), action.view()) is None,
{
    match action {
        Action::Commit(buf) => {
            let text = buf.as_slice();
            let n = text.len();
            if n == 0 {
                return None;
            }
            let k = text[n - 1];
            if !(k == ' ' || k == '\n' || k == '\r') {
                return None;
            }
            let word = &text[0..n - 1];
            assert(word@ =~= text@.drop_last());
            match lookup_abbreviation(entries, word) {
                Some(full) => {
                    let mut out = full;
                    crate::text::string_push(&mut out, k);
                    Some(out)
                },
                None => None,
            }
        },
        _ => None,
    }
}

} // verus!
