//! Fixed-capacity character buffer that holds the text being composed.

use vstd::prelude::*;
use crate::text::string_push;

verus! {

/// Up to sixteen characters, kept inline.
#[derive(Debug, Clone, Copy)]
pub struct CharBuffer {
    data: [char; 16],
    len: usize,
}

/// `s` with `c` appended, unless `s` already holds sixteen characters.
pub open spec fn push16(s: Seq<char>, c: char) -> Seq<char> {
    if s.len() < 16 {
        s.push(c)
    } else {
        s
    }
}

/// `s` with its last character replaced by `c`, if it has one.
pub open spec fn replace_last_seq(s: Seq<char>, c: char) -> Seq<char> {
    if s.len() > 0 {
        s.update(s.len() - 1, c)
    } else {
        s
    }
}

/// `s` with the character at `i` replaced by `c`, if `i` is inside `s`.
pub open spec fn replace_at_seq(s: Seq<char>, i: int, c: char) -> Seq<char> {
    if 0 <= i < s.len() {
        s.update(i, c)
    } else {
        s
    }
}

impl View for CharBuffer {
    type V = Seq<char>;

    /// The characters held, in order.
    closed spec fn view(&self) -> Seq<char> {
        self.data@.take(if self.len <= 16 { self.len as int } else { 16 })
    }
}

impl CharBuffer {
    pub const MAX_CAPACITY: usize = 16;

    #[verifier::type_invariant]
    spec fn inv(self) -> bool {
        self.len <= 16
    }

    /// All sixteen slots, including those past the held characters.
    pub closed spec fn spec_data(&self) -> Seq<char> {
        self.data@
    }

    /// Holds no more than sixteen characters, which are the first slots.
    pub broadcast proof fn lemma_view(b: CharBuffer)
        ensures
            #[trigger] b@.len() <= 16,
            b.spec_data().len() == 16,
            b@ == b.spec_data().take(b@.len() as int),
    {
    }

    /// An empty buffer whose slots all hold `'\0'`.
    pub fn new() -> (r: Self)
        ensures
            r@ == Seq::<char>::empty(),
            r.spec_data() == Seq::new(16, |i: int| '\x00'),
    {
        let r = Self { data: ['\x00';16], len: 0 };
        assert(r.spec_data() =~= Seq::new(16, |i: int| '\x00'));
        assert(r@ =~= Seq::<char>::empty());
        r
    }

    pub fn len(&self) -> (r: usize)
        ensures
            r == self@.len(),
    {
        proof {
            use_type_invariant(self);
        }
        self.len
    }

    pub fn is_empty(&self) -> (r: bool)
        ensures
            r == (self@.len() == 0),
    {
        proof {
            use_type_invariant(self);
        }
        self.len == 0
    }

    pub fn is_full(&self) -> (r: bool)
        ensures
            r == (self@.len() == 16),
    {
        proof {
            use_type_invariant(self);
        }
        self.len == 16
    }

    /// Appends `c` when there is room; reports whether it did.
    pub fn push(&mut self, c: char) -> (r: bool)
        ensures
            r == (old(self)@.len() < 16),
            final(self)@ == push16(old(self)@, c),
            final(self).spec_data() == if r {
                old(self).spec_data().update(old(self)@.len() as int, c)
            } else {
                old(self).spec_data()
            },
    {
        proof {
            use_type_invariant(&*self);
        }
        if self.len == 16 {
            return false;
        }
        self.data[self.len] = c;
        self.len = self.len + 1;
        assert(self@ =~= push16(old(self)@, c));
        true
    }

    /// Removes and returns the last character.
    pub fn pop(&mut self) -> (r: Option<char>)
        ensures
            r == if old(self)@.len() == 0 {
                None
            } else {
                Some(old(self)@.last())
            },
            final(self)@ == if old(self)@.len() == 0 {
                old(self)@
            } else {
                old(self)@.drop_last()
            },
            final(self).spec_data() == old(self).spec_data(),
    {
        proof {
            use_type_invariant(&*self);
        }
        if self.len == 0 {
            return None;
        }
        self.len = self.len - 1;
        assert(self@ =~= old(self)@.drop_last());
        Some(self.data[self.len])
    }

    /// Forgets all characters; the slots keep their contents.
    pub fn clear(&mut self)
        ensures
            final(self)@ == Seq::<char>::empty(),
            final(self).spec_data() == old(self).spec_data(),
    {
        self.len = 0;
        assert(self@ =~= Seq::<char>::empty());
    }

    /// The held characters.
    pub fn as_slice(&self) -> (r: &[char])
        ensures
            r@ == self@,
    {
        proof {
            use_type_invariant(self);
        }
        let r = &self.data[0..self.len];
        assert(r@ =~= self@);
        r
    }

    pub fn last(&self) -> (r: Option<char>)
        ensures
            r == if self@.len() == 0 {
                None
            } else {
                Some(self@.last())
            },
    {
        proof {
            use_type_invariant(self);
        }
        if self.len == 0 {
            None
        } else {
            Some(self.data[self.len - 1])
        }
    }

    /// Replaces the last character, if there is one.
    pub fn replace_last(&mut self, c: char)
        ensures
            final(self)@ == replace_last_seq(old(self)@, c),
            final(self).spec_data() == if old(self)@.len() > 0 {
                old(self).spec_data().update(old(self)@.len() - 1, c)
            } else {
                old(self).spec_data()
            },
    {
        proof {
            use_type_invariant(&*self);
        }
        if self.len > 0 {
            let i = self.len - 1;
            self.data[i] = c;
            assert(self@ =~= replace_last_seq(old(self)@, c));
        }
    }

    /// Replaces the character at `index`, if `index` is inside the buffer.
    pub fn replace_at(&mut self, index: usize, c: char)
        ensures
            final(self)@ == replace_at_seq(old(self)@, index as int, c),
            final(self).spec_data() == if index < old(self)@.len() {
                old(self).spec_data().update(index as int, c)
            } else {
                old(self).spec_data()
            },
    {
        proof {
            use_type_invariant(&*self);
        }
        if index < self.len {
            self.data[index] = c;
            assert(self@ =~= replace_at_seq(old(self)@, index as int, c));
        }
    }

    /// Removes the character at `index`, if `index` is inside the buffer,
    /// shifting the following ones down; the freed slot keeps its content.
    pub fn remove(&mut self, index: usize)
        ensures
            final(self)@ == if index < old(self)@.len() {
                old(self)@.remove(index as int)
            } else {
                old(self)@
            },
            final(self).spec_data() == if index < old(self)@.len() {
                old(self).spec_data().remove(index as int).push(
                    old(self).spec_data()[old(self)@.len() - 1],
                ).take(old(self)@.len() as int - 1) + old(self).spec_data().skip(
                    old(self)@.len() as int - 1,
                )
            } else {
                old(self).spec_data()
            },
    {
        proof {
            use_type_invariant(&*self);
        }
        if index < self.len {
            let n = self.len;
            let ghost d0 = self.data@;
            let mut k = index;
            while k + 1 < n
                invariant
                    index <= k < n,
                    n == old(self).len,
                    n <= 16,
                    self.len == n,
                    d0 == old(self).data@,
                    self.data@.len() == 16,
                    forall|j: int| 0 <= j < index ==> self.data@[j] == d0[j],
                    forall|j: int| index <= j < k ==> self.data@[j] == d0[j + 1],
                    forall|j: int| k <= j < 16 ==> self.data@[j] == d0[j],
                decreases n - k,
            {
                let next = self.data[k + 1];
                self.data[k] = next;
                k = k + 1;
            }
            self.len = n - 1;
            assert(self@ =~= old(self)@.remove(index as int));
            assert(self.spec_data() =~= old(self).spec_data().remove(index as int).push(
                old(self).spec_data()[old(self)@.len() - 1],
            ).take(old(self)@.len() as int - 1) + old(self).spec_data().skip(
                old(self)@.len() as int - 1,
            ));
        }
    }

    /// All slots and the number of held characters.
    pub fn snapshot(&self) -> (r: ([char; 16], usize))
        ensures
            r.0@ == self.spec_data(),
            r.1 == self@.len(),
    {
        proof {
            use_type_invariant(self);
        }
        (self.data, self.len)
    }

    /// Holds the first `len` characters of `data` (a snapshot's slots).
    pub fn restore(&mut self, data: &[char], len: usize)
        requires
            len <= 16,
            len <= data@.len(),
        ensures
            final(self)@ == data@.take(len as int),
            final(self).spec_data() == data@.take(len as int) + old(self).spec_data().skip(
                len as int,
            ),
    {
        proof {
            use_type_invariant(&*self);
        }
        let mut k: usize = 0;
        while k < len
            invariant
                self.len <= 16,
                k <= len <= 16,
                len <= data@.len(),
                self.data@.len() == 16,
                forall|j: int| 0 <= j < k ==> self.data@[j] == data@[j],
                forall|j: int| k <= j < 16 ==> self.data@[j] == old(self).data@[j],
            decreases len - k,
        {
            self.data[k] = data[k];
            k = k + 1;
        }
        self.len = len;
        assert(self@ =~= data@.take(len as int));
        assert(self.spec_data() =~= data@.take(len as int) + old(self).spec_data().skip(
            len as int,
        ));
    }

    /// The held characters as a string.
    pub fn to_string(&self) -> (r: String)
        ensures
            r@ == self@,
    {
        let s = self.as_slice();
        let mut r = String::new();
        let mut i: usize = 0;
        while i < s.len()
            invariant
                s@ == self@,
                i <= s@.len(),
                r@ == s@.take(i as int),
            decreases s@.len() - i,
        {
            string_push(&mut r, s[i]);
            i = i + 1;
            assert(r@ =~= s@.take(i as int));
        }
        assert(s@.take(s@.len() as int) =~= s@);
        r
    }

    /// Iterator over the held characters.
    pub fn iter(&self) -> (r: std::slice::Iter<'_, char>)
        ensures
            vstd::std_specs::slice::into_iter_elts(r) == self@,
    {
        self.as_slice().iter()
    }
}

/// Popping right after pushing onto a buffer with room gives back the pushed
/// character and the buffer as it was.
pub proof fn lemma_pop_undoes_push(s: Seq<char>, c: char)
    requires
        s.len() < 16,
    ensures
        push16(s, c).len() > 0,
        push16(s, c).last() == c,
        push16(s, c).drop_last() == s,
{
    assert(push16(s, c).drop_last() =~= s);
}

/// Pushing onto a full buffer changes nothing.
pub proof fn lemma_push_full_is_noop(s: Seq<char>, c: char)
    requires
        s.len() >= 16,
    ensures
        push16(s, c) == s,
{
}

/// Restoring a buffer's snapshot gives back the characters it held.
pub proof fn lemma_restore_snapshot(b: CharBuffer)
    ensures
        b.spec_data().take(b@.len() as int) == b@,
        b@.len() <= 16,
        b.spec_data().len() == 16,
{
}

impl Default for CharBuffer {
    /// An empty buffer.
    fn default() -> (r: Self)
        ensures
            r@ == Seq::<char>::empty(),
    {
        Self::new()
    }
}

impl PartialEq for CharBuffer {
    fn eq(&self, other: &Self) -> (r: bool) {
        proof {
            use_type_invariant(self);
            use_type_invariant(other);
        }
        if self.len != other.len {
            assert(self@.len() != other@.len());
            return false;
        }
        let mut i: usize = 0;
        while i < self.len
            invariant
                i <= self.len,
                self.len == other.len,
                self.len <= 16,
                self.data@.len() == 16,
                other.data@.len() == 16,
                forall|j: int| 0 <= j < i ==> self.data@[j] == other.data@[j],
            decreases self.len - i,
        {
            if self.data[i] != other.data[i] {
                assert(self@[i as int] != other@[i as int]);
                return false;
            }
            i = i + 1;
        }
        assert(self@ =~= other@);
        true
    }
}

impl vstd::std_specs::cmp::PartialEqSpecImpl for CharBuffer {
    open spec fn obeys_eq_spec() -> bool {
        true
    }

    /// Buffers are equal when they hold the same characters.
    open spec fn eq_spec(&self, other: &CharBuffer) -> bool {
        self@ == other@
    }
}

impl Eq for CharBuffer {
}

} // verus!
