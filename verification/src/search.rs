//! The search bar: an editable query line and the matcher that decides
//! which candidates the query accepts.
//!
//! The matcher is a case-sensitive subsequence test: the query must occur in
//! the candidate in order, though not necessarily contiguously.  An empty
//! query accepts everything.

use vstd::prelude::*;
use vstd::string::{StrSliceExecFns, StringExecFns};

use crate::text::push_char;

verus! {

/// True when `q` occurs, in order but not necessarily contiguously, in `s`.
pub open spec fn is_subsequence_of(q: Seq<char>, s: Seq<char>) -> bool
    decreases s.len(),
{
    if q.len() == 0 {
        true
    } else if s.len() == 0 {
        false
    } else if q[0] == s[0] {
        is_subsequence_of(q.skip(1), s.skip(1))
    } else {
        is_subsequence_of(q, s.skip(1))
    }
}

/// An empty query accepts every candidate; a non-empty one must occur in the
/// candidate as an ordered subsequence.
pub open spec fn query_accepts(q: Seq<char>, s: Seq<char>) -> bool {
    q.len() == 0 || is_subsequence_of(q, s)
}

/// `q` occurs verbatim in `s` starting at index `i`.
pub open spec fn has_substring_at(s: Seq<char>, q: Seq<char>, i: int) -> bool {
    0 <= i && i + q.len() <= s.len() && s.subrange(i, i + q.len()) == q
}

/// Dropping the query's first character keeps it a subsequence.
proof fn lemma_subsequence_drop_head(q: Seq<char>, s: Seq<char>)
    requires
        q.len() > 0,
        is_subsequence_of(q, s),
    ensures
        is_subsequence_of(q.skip(1), s),
    decreases s.len(),
{
    if s.len() == 0 {
    } else {
        let q1 = q.skip(1);
        let s1 = s.skip(1);
        if q[0] == s[0] {
            if q1.len() > 0 {
                if q1[0] == s[0] {
                    lemma_subsequence_drop_head(q1, s1);
                }
            }
        } else {
            lemma_subsequence_drop_head(q, s1);
            if q1.len() > 0 && q1[0] == s[0] {
                lemma_subsequence_drop_head(q1, s1);
            }
        }
    }
}

/// A subsequence of the candidate's tail is a subsequence of the whole
/// candidate.
proof fn lemma_subsequence_extend_front(q: Seq<char>, s: Seq<char>)
    requires
        s.len() > 0,
        is_subsequence_of(q, s.skip(1)),
    ensures
        is_subsequence_of(q, s),
{
    if q.len() > 0 && q[0] == s[0] {
        lemma_subsequence_drop_head(q, s.skip(1));
    }
}

/// A prefix of the candidate is a subsequence of it.
proof fn lemma_prefix_subsequence(q: Seq<char>, s: Seq<char>)
    requires
        q.len() <= s.len(),
        q == s.subrange(0, q.len() as int),
    ensures
        is_subsequence_of(q, s),
    decreases q.len(),
{
    if q.len() > 0 {
        assert(q[0] == s[0]);
        assert(q.skip(1) =~= s.skip(1).subrange(0, q.len() - 1));
        lemma_prefix_subsequence(q.skip(1), s.skip(1));
    }
}

/// Law: a query that occurs verbatim anywhere in the candidate is
/// accepted.
pub proof fn lemma_substring_matches(q: Seq<char>, s: Seq<char>, i: int)
    requires
        has_substring_at(s, q, i),
    ensures
        is_subsequence_of(q, s),
        query_accepts(q, s),
    decreases i,
{
    if i == 0 {
        lemma_prefix_subsequence(q, s);
    } else {
        assert(s.skip(1).subrange(i - 1, i - 1 + q.len()) =~= s.subrange(i, i + q.len()));
        lemma_substring_matches(q, s.skip(1), i - 1);
        lemma_subsequence_extend_front(q, s);
    }
}

/// Relates a search bar before and after its active flag was flipped:
/// leaving the active state discards the query and resets the cursor.
pub open spec fn bar_toggled(pre: SearchBar, post: SearchBar) -> bool {
    &&& post.active == !pre.active
    &&& pre.active ==> post.query@ == Seq::<char>::empty() && post.cursor_position == 0
    &&& !pre.active ==> post.query == pre.query && post.cursor_position == pre.cursor_position
}

/// An editable query line together with the flag that says whether it
/// currently receives keystrokes and the insertion point within the query.
pub struct SearchBar {
    pub query: String,
    pub active: bool,
    pub cursor_position: usize,
}

impl SearchBar {
    /// The cursor always sits between 0 and the number of characters in the
    /// query.
    pub open spec fn wf(&self) -> bool {
        self.cursor_position <= self.query@.len()
    }

    /// Flips the active flag; leaving the active state discards the query
    /// and resets the cursor, so search state never persists across
    /// activation cycles.
    pub fn toggle(&mut self)
        requires
            old(self).wf(),
        ensures
            final(self).wf(),
            bar_toggled(*old(self), *final(self)),
    {
        self.active = !self.active;
        if !self.active {
            self.query = String::new();
            self.cursor_position = 0;
        }
    }

    /// Inserts `c` at the cursor and advances the cursor; does nothing while
    /// the bar is inactive.
    pub fn input(&mut self, c: char)
        requires
            old(self).wf(),
            old(self).query@.len() < usize::MAX,
        ensures
            final(self).wf(),
            final(self).active == old(self).active,
            old(self).active ==> final(self).query@ == old(self).query@.insert(
                old(self).cursor_position as int,
                c,
            ) && final(self).cursor_position == old(self).cursor_position + 1,
            !old(self).active ==> *final(self) == *old(self),
    {
        if self.active {
            let len = self.query.as_str().unicode_len();
            let mut s = self.query.as_str().substring_char(0, self.cursor_position).to_owned();
            push_char(&mut s, c);
            s.append(self.query.as_str().substring_char(self.cursor_position, len));
            proof {
                assert(s@ =~= old(self).query@.insert(old(self).cursor_position as int, c));
            }
            self.query = s;
            self.cursor_position = self.cursor_position + 1;
        }
    }

    /// Removes the character just before the cursor and moves the cursor
    /// back; does nothing while inactive or with the cursor at 0.
    pub fn delete(&mut self)
        requires
            old(self).wf(),
        ensures
            final(self).wf(),
            final(self).active == old(self).active,
            old(self).active && old(self).cursor_position > 0 ==> final(self).query@ == old(
                self,
            ).query@.remove(old(self).cursor_position - 1) && final(self).cursor_position == old(
                self,
            ).cursor_position - 1,
            !(old(self).active && old(self).cursor_position > 0) ==> *final(self) == *old(self),
    {
        if self.active && self.cursor_position > 0 {
            let len = self.query.as_str().unicode_len();
            let mut s = self.query.as_str().substring_char(0, self.cursor_position - 1).to_owned();
            s.append(self.query.as_str().substring_char(self.cursor_position, len));
            proof {
                assert(s@ =~= old(self).query@.remove(old(self).cursor_position - 1));
            }
            self.query = s;
            self.cursor_position = self.cursor_position - 1;
        }
    }

    /// Empties the query and resets the cursor, whether or not the bar is
    /// active.
    pub fn clear(&mut self)
        requires
            old(self).wf(),
        ensures
            final(self).wf(),
            final(self).active == old(self).active,
            final(self).query@ == Seq::<char>::empty(),
            final(self).cursor_position == 0,
    {
        self.query = String::new();
        self.cursor_position = 0;
    }

    /// Decides whether the current query accepts `item`.
    pub fn matches(&self, item: &str) -> (r: bool)
        ensures
            r == query_accepts(self.query@, item@),
    {
        let qlen = self.query.as_str().unicode_len();
        if qlen == 0 {
            return true;
        }
        let slen = item.unicode_len();
        let mut qi: usize = 0;
        let mut si: usize = 0;
        proof {
            assert(self.query@.skip(0) =~= self.query@);
            assert(item@.skip(0) =~= item@);
        }
        while si < slen && qi < qlen
            invariant
                qi <= qlen,
                si <= slen,
                qlen == self.query@.len(),
                slen == item@.len(),
                is_subsequence_of(self.query@, item@) == is_subsequence_of(
                    self.query@.skip(qi as int),
                    item@.skip(si as int),
                ),
            decreases slen - si,
        {
            proof {
                assert(self.query@.skip(qi as int)[0] == self.query@[qi as int]);
                assert(item@.skip(si as int)[0] == item@[si as int]);
            }
            if self.query.as_str().get_char(qi) == item.get_char(si) {
                proof {
                    assert(self.query@.skip(qi as int).skip(1) =~= self.query@.skip(qi + 1));
                    assert(item@.skip(si as int).skip(1) =~= item@.skip(si + 1));
                }
                qi += 1;
            } else {
                proof {
                    assert(item@.skip(si as int).skip(1) =~= item@.skip(si + 1));
                }
            }
            si += 1;
        }
        proof {
            if qi == qlen {
                assert(self.query@.skip(qi as int).len() == 0);
            } else {
                assert(item@.skip(si as int).len() == 0);
                assert(self.query@.skip(qi as int).len() > 0);
            }
        }
        qi == qlen
    }
}

impl Default for SearchBar {
    /// A fresh search bar: empty query, inactive, cursor at 0.
    fn default() -> (r: Self)
        ensures
            r.query@ == Seq::<char>::empty(),
            r.active == false,
            r.cursor_position == 0,
            r.wf(),
    {
        SearchBar { query: String::new(), active: false, cursor_position: 0 }
    }
}

} // verus!
