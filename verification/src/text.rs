//! Small text utilities over the characters of a string: ASCII
//! case-insensitive comparison and substring search.

use vstd::prelude::*;
use crate::letters::{ascii_lower, spec_ascii_lower};

verus! {

broadcast use vstd::string::group_string_axioms;

/// `a` and `b` are equal when ASCII letters are compared without case.
pub open spec fn ascii_ci_eq(a: Seq<char>, b: Seq<char>) -> bool {
    &&& a.len() == b.len()
    &&& forall|i: int| 0 <= i < a.len() ==> spec_ascii_lower(#[trigger] a[i]) == spec_ascii_lower(b[i])
}

/// `needle` occurs in `hay` starting at `i`.
pub open spec fn occurs_at(hay: Seq<char>, needle: Seq<char>, i: int) -> bool {
    &&& 0 <= i
    &&& i + needle.len() <= hay.len()
    &&& hay.subrange(i, i + needle.len()) == needle
}

/// `needle` occurs somewhere in `hay`.
pub open spec fn seq_contains(hay: Seq<char>, needle: Seq<char>) -> bool {
    exists|i: int| occurs_at(hay, needle, i)
}

/// `needle` occurs in `hay` starting at `i`, ASCII letters compared without case.
pub open spec fn occurs_ci_at(hay: Seq<char>, needle: Seq<char>, i: int) -> bool {
    &&& 0 <= i
    &&& i + needle.len() <= hay.len()
    &&& ascii_ci_eq(hay.subrange(i, i + needle.len()), needle)
}

/// `needle` occurs somewhere in `hay`, ASCII letters compared without case.
pub open spec fn seq_contains_ci(hay: Seq<char>, needle: Seq<char>) -> bool {
    exists|i: int| occurs_ci_at(hay, needle, i)
}

/// The characters of `s`.
pub fn chars_of(s: &str) -> (r: Vec<char>)
    ensures
        r@ == s@,
{
    let mut r: Vec<char> = Vec::new();
    for c in it: s.chars()
        invariant
            r@ == it.seq().take(it.index() as int),
            it.seq() == s@,
    {
        r.push(c);
    }
    r
}

/// Whether `a[start..start + b.len()]` equals `b`, exactly or ignoring ASCII case.
fn matches_at(a: &Vec<char>, b: &Vec<char>, start: usize, ignore_case: bool) -> (r: bool)
    requires
        start + b.len() <= a.len(),
    ensures
        ignore_case ==> (r == ascii_ci_eq(a@.subrange(start as int, start + b.len()), b@)),
        !ignore_case ==> (r == (a@.subrange(start as int, start + b.len()) == b@)),
{
    let mut j: usize = 0;
    while j < b.len()
        invariant
            start + b.len() <= a.len(),
            j <= b.len(),
            ignore_case ==> forall|k: int|
                0 <= k < j ==> spec_ascii_lower(#[trigger] a@[start + k]) == spec_ascii_lower(b@[k]),
            !ignore_case ==> forall|k: int| 0 <= k < j ==> #[trigger] a@[start + k] == b@[k],
        decreases b.len() - j,
    {
        let x = a[start + j];
        let y = b[j];
        let same = if ignore_case {
            ascii_lower(x) == ascii_lower(y)
        } else {
            x == y
        };
        if !same {
            proof {
                let sub = a@.subrange(start as int, start + b.len());
                assert(sub[j as int] == a@[start + j]);
            }
            return false;
        }
        j = j + 1;
    }
    proof {
        let sub = a@.subrange(start as int, start + b.len());
        if ignore_case {
            assert forall|i: int| 0 <= i < sub.len() implies spec_ascii_lower(#[trigger] sub[i])
                == spec_ascii_lower(b@[i]) by {
                assert(sub[i] == a@[start + i]);
            }
        } else {
            assert forall|i: int| 0 <= i < sub.len() implies #[trigger] sub[i] == b@[i] by {
                assert(sub[i] == a@[start + i]);
            }
            assert(sub =~= b@);
        }
    }
    true
}

/// Whether `hay` has a window equal to `needle`, exactly or ignoring ASCII case.
fn find_window(hay: &Vec<char>, needle: &Vec<char>, ignore_case: bool) -> (r: bool)
    ensures
        ignore_case ==> (r == seq_contains_ci(hay@, needle@)),
        !ignore_case ==> (r == seq_contains(hay@, needle@)),
{
    if needle.len() > hay.len() {
        return false;
    }
    let last = hay.len() - needle.len();
    let mut i: usize = 0;
    loop
        invariant
            last == hay.len() - needle.len(),
            needle.len() <= hay.len(),
            i <= last,
            ignore_case ==> forall|k: int| 0 <= k < i ==> !occurs_ci_at(hay@, needle@, k),
            !ignore_case ==> forall|k: int| 0 <= k < i ==> !occurs_at(hay@, needle@, k),
        decreases last - i,
    {
        if matches_at(hay, needle, i, ignore_case) {
            proof {
                if ignore_case {
                    assert(occurs_ci_at(hay@, needle@, i as int));
                } else {
                    assert(occurs_at(hay@, needle@, i as int));
                }
            }
            return true;
        }
        if i == last {
            return false;
        }
        i = i + 1;
    }
}

/// Whether `a` and `b` are equal when ASCII letters are compared without case.
pub fn eq_ignore_ascii_case(a: &str, b: &str) -> (r: bool)
    ensures
        r == ascii_ci_eq(a@, b@),
{
    let av = chars_of(a);
    let bv = chars_of(b);
    if av.len() != bv.len() {
        return false;
    }
    let r = matches_at(&av, &bv, 0, true);
    proof {
        assert(av@.subrange(0, bv@.len() as int) =~= av@);
    }
    r
}

/// Whether `needle` occurs in `hay`.
pub fn contains(hay: &str, needle: &str) -> (r: bool)
    ensures
        r == seq_contains(hay@, needle@),
{
    let h = chars_of(hay);
    let n = chars_of(needle);
    find_window(&h, &n, false)
}

/// Whether `needle` occurs in `hay`, ASCII letters compared without case.
pub fn contains_ignore_ascii_case(hay: &str, needle: &str) -> (r: bool)
    ensures
        r == seq_contains_ci(hay@, needle@),
{
    let h = chars_of(hay);
    let n = chars_of(needle);
    find_window(&h, &n, true)
}

/// Calls `String::push`, which appends `c` to the end of `s`.
#[verifier::external_body]
pub(crate) fn string_push(s: &mut String, c: char)
    ensures
        final(s)@ == old(s)@.push(c),
{
    s.push(c);
}

/// The characters of `v` as a string.
pub fn string_of(v: &Vec<char>) -> (r: String)
    ensures
        r@ == v@,
{
    let mut r = String::new();
    let mut i: usize = 0;
    while i < v.len()
        invariant
            i <= v@.len(),
            r@ == v@.take(i as int),
        decreases v@.len() - i,
    {
        string_push(&mut r, v[i]);
        i = i + 1;
        assert(r@ =~= v@.take(i as int));
    }
    assert(v@.take(v@.len() as int) =~= v@);
    r
}

/// What `str::to_lowercase` gives for a string: each character replaced by
/// its Unicode lowercase mapping.
pub uninterp spec fn unicode_str_lowercase(s: Seq<char>) -> Seq<char>;

/// Calls `str::to_lowercase`; its result is named `unicode_str_lowercase` of
/// the argument's characters. Nothing more of the Unicode mapping is stated.
#[verifier::external_body]
pub(crate) fn str_to_lowercase(s: &str) -> (r: String)
    ensures
        r@ == unicode_str_lowercase(s@),
{
    s.to_lowercase()
}

} // verus!
