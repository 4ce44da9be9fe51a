//! An append-only list of items with a filtered view, a single-selection
//! cursor that moves over the filtered view, and bookkeeping for incremental
//! page loads.
//!
//! `items` is the fetched superset; `filtered_indices` is the subset of
//! positions currently visible, in item order; `selected` is an index into
//! `items` (not into `filtered_indices`).  The well-formedness invariant
//! [`ScrollableList::wf`] says the filtered view is a strictly increasing
//! sequence of valid indices and the selection, when set, is visible.

use vstd::prelude::*;

use crate::search::{query_accepts, SearchBar};

verus! {

/// Every element is smaller than its successors.
pub open spec fn strictly_increasing(s: Seq<usize>) -> bool {
    forall|i: int, j: int| 0 <= i < j < s.len() ==> s[i] < s[j]
}

/// Where the cursor lands after one step forward over the filtered view
/// `f`: the entry after the current one, wrapping past the end to the first
/// entry; the first entry when nothing (or something no longer visible) is
/// selected; unchanged when the view is empty.
pub open spec fn next_selection(f: Seq<usize>, sel: Option<usize>) -> Option<usize> {
    if f.len() == 0 {
        sel
    } else {
        match sel {
            Option::Some(s) => if f.contains(s) {
                let pos = f.index_of(s);
                if pos >= f.len() - 1 {
                    Option::Some(f[0])
                } else {
                    Option::Some(f[pos + 1])
                }
            } else {
                Option::Some(f[0])
            },
            Option::None => Option::Some(f[0]),
        }
    }
}

/// Where the cursor lands after one step backward over the filtered view
/// `f`: the entry before the current one, wrapping past the start to the
/// last entry; the first entry when nothing (or something no longer
/// visible) is selected; unchanged when the view is empty.
pub open spec fn previous_selection(f: Seq<usize>, sel: Option<usize>) -> Option<usize> {
    if f.len() == 0 {
        sel
    } else {
        match sel {
            Option::Some(s) => if f.contains(s) {
                let pos = f.index_of(s);
                if pos == 0 {
                    Option::Some(f[f.len() - 1])
                } else {
                    Option::Some(f[pos - 1])
                }
            } else {
                Option::Some(f[0])
            },
            Option::None => Option::Some(f[0]),
        }
    }
}

/// The cursor after `n` forward steps.
pub open spec fn selection_after_nexts(f: Seq<usize>, sel: Option<usize>, n: nat) -> Option<
    usize,
>
    decreases n,
{
    if n == 0 {
        sel
    } else {
        next_selection(f, selection_after_nexts(f, sel, (n - 1) as nat))
    }
}

/// The cursor after `n` backward steps.
pub open spec fn selection_after_previouses(f: Seq<usize>, sel: Option<usize>, n: nat) -> Option<
    usize,
>
    decreases n,
{
    if n == 0 {
        sel
    } else {
        previous_selection(f, selection_after_previouses(f, sel, (n - 1) as nat))
    }
}

/// How a recomputed filtered view repairs the selection: a selection that is
/// still visible is kept; one that is not falls back to the first visible
/// entry, or to nothing when the view is empty.  An empty selection stays
/// empty.
pub open spec fn apply_selection(sel: Option<usize>, f: Seq<usize>) -> Option<usize> {
    match sel {
        Option::Some(s) => if f.contains(s) {
            Option::Some(s)
        } else if f.len() > 0 {
            Option::Some(f[0])
        } else {
            Option::None
        },
        Option::None => Option::None,
    }
}

/// Relates a list before and after its filter was recomputed against query
/// `q`, with `key` giving the text each item is matched on: the items and
/// the load bookkeeping are untouched, the new filtered view consists of
/// exactly the indices whose key the query accepts, in item order, and the
/// selection was repaired per [`apply_selection`].
pub open spec fn filter_refreshed<T>(
    pre: ScrollableList<T>,
    post: ScrollableList<T>,
    q: Seq<char>,
    key: spec_fn(T) -> Seq<char>,
) -> bool {
    &&& post.items == pre.items
    &&& post.title == pre.title
    &&& post.loading_more == pre.loading_more
    &&& post.has_more == pre.has_more
    &&& strictly_increasing(post.filtered_indices@)
    &&& forall|i: int|
        0 <= i < post.items@.len() ==> (post.filtered_indices@.contains(i as usize)
            <==> query_accepts(q, key(post.items@[i])))
    &&& forall|j: int|
        0 <= j < post.filtered_indices@.len() ==> (#[trigger] post.filtered_indices@[j])
            < post.items@.len()
    &&& post.selected == apply_selection(pre.selected, post.filtered_indices@)
}

/// A freshly constructed list carrying the given title: nothing fetched,
/// nothing visible, nothing selected, not loading, and assuming the source
/// has more pages.
pub open spec fn is_fresh<T>(l: ScrollableList<T>, title: Seq<char>) -> bool {
    &&& l.items@.len() == 0
    &&& l.filtered_indices@.len() == 0
    &&& l.selected is None
    &&& l.title@ == title
    &&& l.loading_more == false
    &&& l.has_more == true
}

/// An ordered collection of opaque items with a filtered view, a selection
/// cursor and "more pages available" bookkeeping.
pub struct ScrollableList<T> {
    pub items: Vec<T>,
    pub filtered_indices: Vec<usize>,
    pub selected: Option<usize>,
    pub title: String,
    pub loading_more: bool,
    pub has_more: bool,
}

/// First position of `x` in `v`, scanning from the front.
fn position_of(v: &Vec<usize>, x: usize) -> (r: Option<usize>)
    ensures
        match r {
            Option::Some(p) => p < v@.len() && v@[p as int] == x && (forall|j: int|
                0 <= j < p ==> v@[j] != x),
            Option::None => !v@.contains(x),
        },
{
    let mut i: usize = 0;
    while i < v.len()
        invariant
            i <= v@.len(),
            forall|j: int| 0 <= j < i ==> v@[j] != x,
        decreases v@.len() - i,
    {
        if v[i] == x {
            return Option::Some(i);
        }
        i += 1;
    }
    Option::None
}

/// Is `x` one of the elements of `v`?
fn vec_contains(v: &Vec<usize>, x: usize) -> (r: bool)
    ensures
        r == v@.contains(x),
{
    match position_of(v, x) {
        Option::Some(_) => true,
        Option::None => false,
    }
}

/// In a strictly increasing sequence, `index_of` recovers the position an
/// element was read from.
pub proof fn lemma_strictly_increasing_index_of(f: Seq<usize>, k: int)
    requires
        strictly_increasing(f),
        0 <= k < f.len(),
    ensures
        f.contains(f[k]),
        f.index_of(f[k]) == k,
{
    assert(f.contains(f[k]));
    let idx = f.index_of(f[k]);
    assert(0 <= idx < f.len() && f[idx] == f[k]);
    if idx < k {
        assert(f[idx] < f[k]);
    } else if idx > k {
        assert(f[k] < f[idx]);
    }
}

impl<T> ScrollableList<T> {
    /// The filtered view is strictly increasing, all of its entries are
    /// valid indices into `items`, and the selection, when set, is one of
    /// them.
    pub open spec fn wf(&self) -> bool {
        &&& strictly_increasing(self.filtered_indices@)
        &&& forall|i: int|
            0 <= i < self.filtered_indices@.len() ==> (#[trigger] self.filtered_indices@[i])
                < self.items@.len()
        &&& self.selected matches Option::Some(s) ==> self.filtered_indices@.contains(s)
    }

    /// The item the cursor points at, when it points at a valid position.
    pub open spec fn spec_selected_item(&self) -> Option<T> {
        match self.selected {
            Option::Some(i) => if i < self.items@.len() {
                Option::Some(self.items@[i as int])
            } else {
                Option::None
            },
            Option::None => Option::None,
        }
    }

    /// An empty list with the given display title; a fresh list assumes the
    /// source has more pages until told otherwise.
    pub fn new(title: String) -> (r: Self)
        ensures
            r.items@.len() == 0,
            r.filtered_indices@.len() == 0,
            r.selected is None,
            r.title == title,
            r.loading_more == false,
            r.has_more == true,
            r.wf(),
    {
        ScrollableList {
            items: Vec::new(),
            filtered_indices: Vec::new(),
            selected: Option::None,
            title,
            loading_more: false,
            has_more: true,
        }
    }

    /// Replaces the item set wholesale, keeping the other fields.
    pub fn with_items(self, items: Vec<T>) -> (r: Self)
        ensures
            r.items == items,
            r.filtered_indices == self.filtered_indices,
            r.selected == self.selected,
            r.title == self.title,
            r.loading_more == self.loading_more,
            r.has_more == self.has_more,
    {
        ScrollableList { items, ..self }
    }

    /// Sets the cursor directly.  The caller must keep the selection
    /// invariant: the index must be visible in the filtered view.
    pub fn select(&mut self, index: Option<usize>)
        requires
            old(self).wf(),
            index matches Option::Some(i) ==> old(self).filtered_indices@.contains(i),
        ensures
            final(self).wf(),
            final(self).selected == index,
            final(self).items == old(self).items,
            final(self).filtered_indices == old(self).filtered_indices,
            final(self).title == old(self).title,
            final(self).loading_more == old(self).loading_more,
            final(self).has_more == old(self).has_more,
    {
        self.selected = index;
    }

    /// Moves the cursor one entry forward in the filtered view, wrapping
    /// past the last entry to the first; selects the first entry when
    /// nothing is selected; does nothing when the view is empty.
    pub fn next(&mut self)
        requires
            old(self).wf(),
        ensures
            final(self).wf(),
            final(self).selected == next_selection(
                old(self).filtered_indices@,
                old(self).selected,
            ),
            final(self).items == old(self).items,
            final(self).filtered_indices == old(self).filtered_indices,
            final(self).title == old(self).title,
            final(self).loading_more == old(self).loading_more,
            final(self).has_more == old(self).has_more,
    {
        if self.filtered_indices.len() == 0 {
            return ;
        }
        let i: usize = match self.selected {
            Option::Some(cur) => {
                match position_of(&self.filtered_indices, cur) {
                    Option::Some(pos) => {
                        proof {
                            let f = self.filtered_indices@;
                            assert(f.contains(cur));
                            lemma_strictly_increasing_index_of(f, pos as int);
                        }
                        if pos >= self.filtered_indices.len() - 1 {
                            self.filtered_indices[0]
                        } else {
                            self.filtered_indices[pos + 1]
                        }
                    },
                    Option::None => self.filtered_indices[0],
                }
            },
            Option::None => self.filtered_indices[0],
        };
        proof {
            let f = self.filtered_indices@;
            assert(f.contains(i)) by {
                assert(exists|k: int| 0 <= k < f.len() && f[k] == i);
            }
        }
        self.selected = Option::Some(i);
    }

    /// Moves the cursor one entry backward in the filtered view, wrapping
    /// past the first entry to the last; selects the first entry when
    /// nothing is selected; does nothing when the view is empty.
    pub fn previous(&mut self)
        requires
            old(self).wf(),
        ensures
            final(self).wf(),
            final(self).selected == previous_selection(
                old(self).filtered_indices@,
                old(self).selected,
            ),
            final(self).items == old(self).items,
            final(self).filtered_indices == old(self).filtered_indices,
            final(self).title == old(self).title,
            final(self).loading_more == old(self).loading_more,
            final(self).has_more == old(self).has_more,
    {
        if self.filtered_indices.len() == 0 {
            return ;
        }
        let i: usize = match self.selected {
            Option::Some(cur) => {
                match position_of(&self.filtered_indices, cur) {
                    Option::Some(pos) => {
                        proof {
                            let f = self.filtered_indices@;
                            assert(f.contains(cur));
                            lemma_strictly_increasing_index_of(f, pos as int);
                        }
                        if pos == 0 {
                            self.filtered_indices[self.filtered_indices.len() - 1]
                        } else {
                            self.filtered_indices[pos - 1]
                        }
                    },
                    Option::None => self.filtered_indices[0],
                }
            },
            Option::None => self.filtered_indices[0],
        };
        proof {
            let f = self.filtered_indices@;
            assert(f.contains(i)) by {
                assert(exists|k: int| 0 <= k < f.len() && f[k] == i);
            }
        }
        self.selected = Option::Some(i);
    }

    /// Moves the cursor `n` entries forward, one wrapping step at a time.
    pub fn advance_next(&mut self, n: usize)
        requires
            old(self).wf(),
        ensures
            final(self).wf(),
            final(self).selected == selection_after_nexts(
                old(self).filtered_indices@,
                old(self).selected,
                n as nat,
            ),
            final(self).items == old(self).items,
            final(self).filtered_indices == old(self).filtered_indices,
            final(self).title == old(self).title,
            final(self).loading_more == old(self).loading_more,
            final(self).has_more == old(self).has_more,
    {
        let mut k: usize = 0;
        while k < n
            invariant
                k <= n,
                self.wf(),
                self.selected == selection_after_nexts(
                    old(self).filtered_indices@,
                    old(self).selected,
                    k as nat,
                ),
                self.items == old(self).items,
                self.filtered_indices == old(self).filtered_indices,
                self.title == old(self).title,
                self.loading_more == old(self).loading_more,
                self.has_more == old(self).has_more,
            decreases n - k,
        {
            self.next();
            k += 1;
        }
    }

    /// Moves the cursor `n` entries backward, one wrapping step at a time.
    pub fn advance_previous(&mut self, n: usize)
        requires
            old(self).wf(),
        ensures
            final(self).wf(),
            final(self).selected == selection_after_previouses(
                old(self).filtered_indices@,
                old(self).selected,
                n as nat,
            ),
            final(self).items == old(self).items,
            final(self).filtered_indices == old(self).filtered_indices,
            final(self).title == old(self).title,
            final(self).loading_more == old(self).loading_more,
            final(self).has_more == old(self).has_more,
    {
        let mut k: usize = 0;
        while k < n
            invariant
                k <= n,
                self.wf(),
                self.selected == selection_after_previouses(
                    old(self).filtered_indices@,
                    old(self).selected,
                    k as nat,
                ),
                self.items == old(self).items,
                self.filtered_indices == old(self).filtered_indices,
                self.title == old(self).title,
                self.loading_more == old(self).loading_more,
                self.has_more == old(self).has_more,
            decreases n - k,
        {
            self.previous();
            k += 1;
        }
    }

    /// Jumps to the first entry of the filtered view; does nothing when the
    /// view is empty.
    pub fn first(&mut self)
        requires
            old(self).wf(),
        ensures
            final(self).wf(),
            final(self).selected == (if old(self).filtered_indices@.len() > 0 {
                Option::Some(old(self).filtered_indices@[0])
            } else {
                old(self).selected
            }),
            final(self).items == old(self).items,
            final(self).filtered_indices == old(self).filtered_indices,
            final(self).title == old(self).title,
            final(self).loading_more == old(self).loading_more,
            final(self).has_more == old(self).has_more,
    {
        if self.filtered_indices.len() > 0 {
            let i = self.filtered_indices[0];
            proof {
                assert(self.filtered_indices@.contains(i)) by {
                    assert(self.filtered_indices@[0] == i);
                }
            }
            self.selected = Option::Some(i);
        }
    }

    /// Jumps to the last entry of the filtered view; does nothing when the
    /// view is empty.
    pub fn last(&mut self)
        requires
            old(self).wf(),
        ensures
            final(self).wf(),
            final(self).selected == (if old(self).filtered_indices@.len() > 0 {
                Option::Some(old(self).filtered_indices@[old(self).filtered_indices@.len() - 1])
            } else {
                old(self).selected
            }),
            final(self).items == old(self).items,
            final(self).filtered_indices == old(self).filtered_indices,
            final(self).title == old(self).title,
            final(self).loading_more == old(self).loading_more,
            final(self).has_more == old(self).has_more,
    {
        if self.filtered_indices.len() > 0 {
            let i = self.filtered_indices[self.filtered_indices.len() - 1];
            proof {
                assert(self.filtered_indices@.contains(i)) by {
                    assert(self.filtered_indices@[self.filtered_indices@.len() - 1] == i);
                }
            }
            self.selected = Option::Some(i);
        }
    }

    /// Clears the cursor.
    pub fn unselect(&mut self)
        requires
            old(self).wf(),
        ensures
            final(self).wf(),
            final(self).selected is None,
            final(self).items == old(self).items,
            final(self).filtered_indices == old(self).filtered_indices,
            final(self).title == old(self).title,
            final(self).loading_more == old(self).loading_more,
            final(self).has_more == old(self).has_more,
    {
        self.selected = Option::None;
    }

    /// The index the cursor points at, if any.
    pub fn selected_index(&self) -> (r: Option<usize>)
        ensures
            r == self.selected,
    {
        self.selected
    }

    /// The item the cursor points at, if it points at a valid position.
    pub fn selected_item(&self) -> (r: Option<&T>)
        ensures
            match r {
                Option::Some(t) => self.spec_selected_item() == Option::Some(*t),
                Option::None => self.spec_selected_item() is None,
            },
    {
        match self.selected {
            Option::Some(i) => if i < self.items.len() {
                Option::Some(&self.items[i])
            } else {
                Option::None
            },
            Option::None => Option::None,
        }
    }

    /// Has nothing been fetched yet?
    pub fn is_empty(&self) -> (r: bool)
        ensures
            r == (self.items@.len() == 0),
    {
        self.items.len() == 0
    }

    /// Appends a fetched page and clears the in-flight flag.  The filtered
    /// view and the selection are untouched: existing entries keep their
    /// meaning, and the new items stay invisible until the filter is
    /// recomputed.
    pub fn append_items(&mut self, new_items: Vec<T>)
        requires
            old(self).wf(),
        ensures
            final(self).wf(),
            final(self).items@ == old(self).items@ + new_items@,
            final(self).filtered_indices == old(self).filtered_indices,
            final(self).selected == old(self).selected,
            final(self).title == old(self).title,
            final(self).loading_more == false,
            final(self).has_more == old(self).has_more,
    {
        let mut incoming = new_items;
        self.items.append(&mut incoming);
        self.loading_more = false;
    }

    /// Sets the in-flight flag.
    pub fn set_loading(&mut self, loading: bool)
        requires
            old(self).wf(),
        ensures
            final(self).wf(),
            final(self).loading_more == loading,
            final(self).items == old(self).items,
            final(self).filtered_indices == old(self).filtered_indices,
            final(self).selected == old(self).selected,
            final(self).title == old(self).title,
            final(self).has_more == old(self).has_more,
    {
        self.loading_more = loading;
    }

    /// Records whether the source reports further pages.
    pub fn set_has_more(&mut self, has_more: bool)
        requires
            old(self).wf(),
        ensures
            final(self).wf(),
            final(self).has_more == has_more,
            final(self).items == old(self).items,
            final(self).filtered_indices == old(self).filtered_indices,
            final(self).selected == old(self).selected,
            final(self).title == old(self).title,
            final(self).loading_more == old(self).loading_more,
    {
        self.has_more = has_more;
    }

    /// Makes every item visible: the filtered view becomes the identity over
    /// all current indices.  The selection is untouched (it is necessarily
    /// still visible).
    pub fn reset_filter_to_all(&mut self)
        requires
            old(self).wf(),
        ensures
            final(self).wf(),
            final(self).filtered_indices@ == Seq::new(
                old(self).items@.len(),
                |i: int| i as usize,
            ),
            final(self).items == old(self).items,
            final(self).selected == old(self).selected,
            final(self).title == old(self).title,
            final(self).loading_more == old(self).loading_more,
            final(self).has_more == old(self).has_more,
    {
        let n = self.items.len();
        let mut all: Vec<usize> = Vec::new();
        let mut i: usize = 0;
        while i < n
            invariant
                i <= n,
                all@ == Seq::new(i as nat, |k: int| k as usize),
            decreases n - i,
        {
            all.push(i);
            proof {
                assert(all@ =~= Seq::new((i + 1) as nat, |k: int| k as usize));
            }
            i += 1;
        }
        self.filtered_indices = all;
        proof {
            match self.selected {
                Option::Some(s) => {
                    assert(self.filtered_indices@[s as int] == s);
                },
                Option::None => {},
            }
        }
    }

    /// Recomputes the filtered view: entry `i` stays visible exactly when
    /// the query accepts `keys[i]`, the text of item `i`.  A selection that
    /// fell out of view is repaired to the first visible entry, or cleared
    /// when nothing is visible; an empty query makes everything visible.
    pub fn apply_search(&mut self, search_bar: &SearchBar, keys: &Vec<String>)
        requires
            old(self).wf(),
            keys@.len() == old(self).items@.len(),
        ensures
            final(self).wf(),
            final(self).items == old(self).items,
            final(self).title == old(self).title,
            final(self).loading_more == old(self).loading_more,
            final(self).has_more == old(self).has_more,
            strictly_increasing(final(self).filtered_indices@),
            forall|i: int|
                0 <= i < keys@.len() ==> (final(self).filtered_indices@.contains(i as usize)
                    <==> query_accepts(search_bar.query@, keys@[i]@)),
            final(self).selected == apply_selection(
                old(self).selected,
                final(self).filtered_indices@,
            ),
            search_bar.query@.len() == 0 ==> final(self).filtered_indices@ == Seq::new(
                old(self).items@.len(),
                |i: int| i as usize,
            ),
    {
        let n = keys.len();
        let mut filtered: Vec<usize> = Vec::new();
        let mut idx: usize = 0;
        while idx < n
            invariant
                idx <= n,
                n == keys@.len(),
                strictly_increasing(filtered@),
                forall|j: int| 0 <= j < filtered@.len() ==> (#[trigger] filtered@[j]) < idx,
                forall|j: int|
                    0 <= j < filtered@.len() ==> query_accepts(
                        search_bar.query@,
                        keys@[#[trigger] filtered@[j] as int]@,
                    ),
                forall|i: int|
                    0 <= i < idx && query_accepts(search_bar.query@, keys@[i]@)
                        ==> filtered@.contains(i as usize),
                search_bar.query@.len() == 0 ==> filtered@ == Seq::new(
                    idx as nat,
                    |k: int| k as usize,
                ),
            decreases n - idx,
        {
            let ghost pre = filtered@;
            if search_bar.matches(keys[idx].as_str()) {
                filtered.push(idx);
                proof {
                    assert(filtered@ == pre.push(idx));
                    assert(forall|j: int| 0 <= j < pre.len() ==> filtered@[j] == pre[j]);
                    assert(filtered@.contains(idx)) by {
                        assert(filtered@[filtered@.len() - 1] == idx);
                    }
                    assert forall|i: int|
                        0 <= i < idx + 1 && query_accepts(
                            search_bar.query@,
                            keys@[i]@,
                        ) implies filtered@.contains(i as usize) by {
                        if i < idx {
                            assert(pre.contains(i as usize));
                            let j = choose|j: int| 0 <= j < pre.len() && pre[j] == i as usize;
                            assert(filtered@[j] == i as usize);
                        }
                    }
                    if search_bar.query@.len() == 0 {
                        assert(filtered@ =~= Seq::new((idx + 1) as nat, |k: int| k as usize));
                    }
                }
            }
            idx += 1;
        }
        self.filtered_indices = filtered;
        let repaired: Option<usize> = match self.selected {
            Option::Some(sel) => {
                if vec_contains(&self.filtered_indices, sel) {
                    Option::Some(sel)
                } else if self.filtered_indices.len() > 0 {
                    let head = self.filtered_indices[0];
                    proof {
                        assert(self.filtered_indices@.contains(head)) by {
                            assert(self.filtered_indices@[0] == head);
                        }
                    }
                    Option::Some(head)
                } else {
                    Option::None
                }
            },
            Option::None => Option::None,
        };
        self.selected = repaired;
    }
}

/// Law: one step forward then one step back — or one back then one forward —
/// over an unchanged filtered view with at least two visible entries
/// restores the selection.
pub proof fn lemma_next_previous_round_trip(f: Seq<usize>, sel: Option<usize>)
    requires
        strictly_increasing(f),
        f.len() >= 2,
        sel matches Option::Some(s) && f.contains(s),
    ensures
        previous_selection(f, next_selection(f, sel)) == sel,
        next_selection(f, previous_selection(f, sel)) == sel,
{
    let s = sel->0;
    let pos = f.index_of(s);
    assert(0 <= pos < f.len() && f[pos] == s);
    lemma_strictly_increasing_index_of(f, 0);
    lemma_strictly_increasing_index_of(f, f.len() - 1);
    if pos >= f.len() - 1 {
        assert(next_selection(f, sel) == Option::Some(f[0]));
        assert(previous_selection(f, Option::Some(f[0])) == Option::Some(f[f.len() - 1]));
    } else {
        lemma_strictly_increasing_index_of(f, pos + 1);
        assert(next_selection(f, sel) == Option::Some(f[pos + 1]));
        assert(previous_selection(f, Option::Some(f[pos + 1])) == Option::Some(f[pos]));
    }
    if pos == 0 {
        assert(previous_selection(f, sel) == Option::Some(f[f.len() - 1]));
        assert(next_selection(f, Option::Some(f[f.len() - 1])) == Option::Some(f[0]));
    } else {
        lemma_strictly_increasing_index_of(f, pos - 1);
        assert(previous_selection(f, sel) == Option::Some(f[pos - 1]));
        assert(next_selection(f, Option::Some(f[pos - 1])) == Option::Some(f[pos]));
    }
}

/// One forward step from the entry at position `k` lands on the entry at
/// position `k + 1`, taken cyclically.
proof fn lemma_next_from_position(f: Seq<usize>, k: int)
    requires
        strictly_increasing(f),
        0 <= k < f.len(),
    ensures
        next_selection(f, Option::Some(f[k])) == Option::Some(f[(k + 1) % f.len() as int]),
{
    lemma_strictly_increasing_index_of(f, k);
    let m = f.len() as int;
    if k == m - 1 {
        assert((k + 1) % m == 0) by {
            vstd::arithmetic::div_mod::lemma_mod_self_0(m);
        }
    } else {
        assert((k + 1) % m == k + 1) by {
            vstd::arithmetic::div_mod::lemma_small_mod((k + 1) as nat, m as nat);
        }
    }
}

/// After `n` forward steps from the entry at position `k`, the cursor sits
/// on the entry at position `k + n`, taken cyclically.
proof fn lemma_nexts_from_position(f: Seq<usize>, k: int, n: nat)
    requires
        strictly_increasing(f),
        0 <= k < f.len(),
    ensures
        selection_after_nexts(f, Option::Some(f[k]), n) == Option::Some(
            f[(k + n) % f.len() as int],
        ),
    decreases n,
{
    let m = f.len() as int;
    if n == 0 {
        assert(k % m == k) by {
            vstd::arithmetic::div_mod::lemma_small_mod(k as nat, m as nat);
        }
    } else {
        lemma_nexts_from_position(f, k, (n - 1) as nat);
        let j = (k + n - 1) % m;
        assert(0 <= j < m) by {
            vstd::arithmetic::div_mod::lemma_mod_division_less_than_divisor(k + n - 1, m);
        }
        lemma_next_from_position(f, j);
        assert((j + 1) % m == (k + n) % m) by {
            if m == 1 {
                vstd::arithmetic::div_mod::lemma_small_mod(0, 1);
                assert(j == 0);
                vstd::arithmetic::div_mod::lemma_mod_self_0(1);
                assert((j + 1) % m == 0);
                assert((k + n) % 1 == 0) by {
                    vstd::arithmetic::div_mod::lemma_mod_division_less_than_divisor(k + n, 1);
                }
            } else {
                vstd::arithmetic::div_mod::lemma_add_mod_noop(k + n - 1, 1, m);
                vstd::arithmetic::div_mod::lemma_small_mod(1, m as nat);
                vstd::arithmetic::div_mod::lemma_mod_twice(k + n - 1, m);
            }
        }
    }
}

/// Law: advancing the selection once per visible entry — a full wrap
/// cycle — returns it to its starting value.
pub proof fn lemma_full_cycle_next(f: Seq<usize>, sel: Option<usize>)
    requires
        strictly_increasing(f),
        sel matches Option::Some(s) && f.contains(s),
    ensures
        selection_after_nexts(f, sel, f.len()) == sel,
{
    let s = sel->0;
    let pos = f.index_of(s);
    assert(0 <= pos < f.len() && f[pos] == s);
    lemma_nexts_from_position(f, pos, f.len());
    let m = f.len() as int;
    assert((pos + m) % m == pos) by {
        vstd::arithmetic::div_mod::lemma_mod_add_multiples_vanish(pos, m);
        vstd::arithmetic::div_mod::lemma_small_mod(pos as nat, m as nat);
    }
}

impl<T> Default for ScrollableList<T> {
    /// An untitled empty list; a fresh list assumes the source has more
    /// pages until told otherwise.
    fn default() -> (r: Self)
        ensures
            r.items@.len() == 0,
            r.filtered_indices@.len() == 0,
            r.selected is None,
            r.title@ == Seq::<char>::empty(),
            r.loading_more == false,
            r.has_more == true,
            r.wf(),
    {
        ScrollableList {
            items: Vec::new(),
            filtered_indices: Vec::new(),
            selected: Option::None,
            title: String::new(),
            loading_more: false,
            has_more: true,
        }
    }
}

} // verus!
