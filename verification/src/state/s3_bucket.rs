//! Bucket-browsing state: the bucket list with its filter and selection,
//! and server-side pagination with stale-completion discarding.

use vstd::prelude::*;
use vstd::string::StringExecFns;

use crate::actions::AppActions;
use crate::list::{
    filter_refreshed, is_fresh, next_selection, previous_selection, selection_after_nexts,
    selection_after_previouses, ScrollableList,
};
use crate::search::{bar_toggled, query_accepts, SearchBar};
use crate::state::s3_object::{entered_bucket, S3ObjectState};
use crate::state::{
    next_generation, spec_next_generation, AppMode, Effect, LoadingState, PageRequest,
};

verus! {

/// What the remote store reports of one bucket: its name, which the store
/// may omit.
pub struct BucketItem {
    pub name: Option<String>,
}

/// The text a bucket is matched and displayed by: its name, or a fixed
/// placeholder when the store omitted it.
pub open spec fn spec_bucket_key(b: BucketItem) -> Seq<char> {
    match b.name {
        Option::Some(n) => n@,
        Option::None => "Unknown Bucket"@,
    }
}

/// The key function the bucket list is filtered by.
pub open spec fn bucket_key_fn() -> spec_fn(BucketItem) -> Seq<char> {
    |b: BucketItem| spec_bucket_key(b)
}

/// The display key of one bucket.
fn bucket_display_key(b: &BucketItem) -> (r: String)
    ensures
        r@ == spec_bucket_key(*b),
{
    match &b.name {
        Option::Some(n) => n.clone(),
        Option::None => String::from_str("Unknown Bucket"),
    }
}

/// The state of the bucket-browsing view.
pub struct S3BucketState {
    pub bucket_list: ScrollableList<BucketItem>,
    pub bucket_continuation_token: Option<String>,
    pub current_bucket: Option<String>,
    pub search_bar: SearchBar,
    pub loading_state: LoadingState,
    pub load_generation: u64,
}

/// The two states agree on everything except the loading state.
pub open spec fn same_but_loading_state(pre: S3BucketState, post: S3BucketState) -> bool {
    &&& post.bucket_list == pre.bucket_list
    &&& post.bucket_continuation_token == pre.bucket_continuation_token
    &&& post.current_bucket == pre.current_bucket
    &&& post.search_bar == pre.search_bar
    &&& post.load_generation == pre.load_generation
}

/// The two states agree on everything except the bucket list and the
/// search bar.
pub open spec fn same_but_list_and_search(pre: S3BucketState, post: S3BucketState) -> bool {
    &&& post.bucket_continuation_token == pre.bucket_continuation_token
    &&& post.current_bucket == pre.current_bucket
    &&& post.loading_state == pre.loading_state
    &&& post.load_generation == pre.load_generation
}

impl S3BucketState {
    /// The list and the search bar are well-formed.
    pub open spec fn wf(&self) -> bool {
        &&& self.bucket_list.wf()
        &&& self.search_bar.wf()
    }

    /// A fresh bucket view: empty list titled "S3 Buckets", no token, no
    /// bucket picked, generation 0.
    pub fn new() -> (r: Self)
        ensures
            r.wf(),
            is_fresh(r.bucket_list, "S3 Buckets"@),
            r.bucket_continuation_token is None,
            r.current_bucket is None,
            r.search_bar.query@ == Seq::<char>::empty(),
            r.search_bar.active == false,
            r.search_bar.cursor_position == 0,
            r.loading_state is Idle,
            r.load_generation == 0,
    {
        S3BucketState {
            bucket_list: ScrollableList::new(String::from_str("S3 Buckets")),
            bucket_continuation_token: Option::None,
            current_bucket: Option::None,
            search_bar: SearchBar::default(),
            loading_state: LoadingState::Idle,
            load_generation: 0,
        }
    }

    /// Starts a page fetch, unless one is already in flight (the
    /// re-entrancy guard).  The returned request carries the continuation
    /// token to round-trip and the generation stamp to hand back on
    /// completion.
    pub fn begin_load_buckets(&mut self) -> (r: Option<PageRequest>)
        requires
            old(self).wf(),
        ensures
            final(self).wf(),
            old(self).loading_state is Loading ==> r is None && *final(self) == *old(self),
            !(old(self).loading_state is Loading) ==> {
                &&& r matches Option::Some(req)
                &&& req.generation == old(self).load_generation
                &&& req.continuation_token == old(self).bucket_continuation_token
                &&& final(self).loading_state is Loading
                &&& same_but_loading_state(*old(self), *final(self))
            },
    {
        match self.loading_state {
            LoadingState::Loading => Option::None,
            _ => {
                self.loading_state = LoadingState::Loading;
                Option::Some(
                    PageRequest {
                        generation: self.load_generation,
                        continuation_token: self.bucket_continuation_token.clone(),
                    },
                )
            },
        }
    }

    /// Applies a completed page fetch: appends the page, records the new
    /// continuation token and whether more pages exist, makes everything
    /// visible again, and selects the first entry.  A completion carrying a
    /// stale generation stamp — its context was abandoned — is discarded
    /// whole.
    pub fn finish_load_buckets(
        &mut self,
        generation: u64,
        new_items: Vec<BucketItem>,
        next_token: Option<String>,
    )
        requires
            old(self).wf(),
        ensures
            final(self).wf(),
            generation != old(self).load_generation ==> *final(self) == *old(self),
            generation == old(self).load_generation ==> {
                &&& final(self).bucket_list.items@ == old(self).bucket_list.items@ + new_items@
                &&& final(self).bucket_list.title == old(self).bucket_list.title
                &&& final(self).bucket_list.loading_more == false
                &&& final(self).bucket_list.has_more == (next_token is Some)
                &&& final(self).bucket_list.filtered_indices@ == Seq::new(
                    old(self).bucket_list.items@.len() + new_items@.len(),
                    |i: int| i as usize,
                )
                &&& final(self).bucket_list.selected == (if old(self).bucket_list.items@.len()
                    + new_items@.len() > 0 {
                    Option::Some(0usize)
                } else {
                    old(self).bucket_list.selected
                })
                &&& final(self).bucket_continuation_token == next_token
                &&& final(self).loading_state is Loaded
                &&& final(self).current_bucket == old(self).current_bucket
                &&& final(self).search_bar == old(self).search_bar
                &&& final(self).load_generation == old(self).load_generation
            },
    {
        if generation != self.load_generation {
            return ;
        }
        self.bucket_list.set_has_more(next_token.is_some());
        self.bucket_continuation_token = next_token;
        self.bucket_list.append_items(new_items);
        self.bucket_list.reset_filter_to_all();
        self.bucket_list.first();
        self.loading_state = LoadingState::Loaded;
        proof {
            if old(self).bucket_list.items@.len() + new_items@.len() > 0 {
                assert(self.bucket_list.filtered_indices@[0] == 0usize);
            }
        }
    }

    /// Records a failed page fetch, unless its generation stamp is stale.
    pub fn fail_load_buckets(&mut self, generation: u64)
        requires
            old(self).wf(),
        ensures
            final(self).wf(),
            generation != old(self).load_generation ==> *final(self) == *old(self),
            generation == old(self).load_generation ==> final(self).loading_state is Error
                && same_but_loading_state(*old(self), *final(self)),
    {
        if generation == self.load_generation {
            self.loading_state = LoadingState::Error;
        }
    }

    /// Remembers the name of the currently selected bucket, when the
    /// selected entry carries one.
    pub fn select_bucket(&mut self)
        requires
            old(self).wf(),
        ensures
            final(self).wf(),
            final(self).current_bucket == (match old(self).bucket_list.spec_selected_item() {
                Option::Some(b) => match b.name {
                    Option::Some(n) => Option::Some(n),
                    Option::None => old(self).current_bucket,
                },
                Option::None => old(self).current_bucket,
            }),
            final(self).bucket_list == old(self).bucket_list,
            final(self).bucket_continuation_token == old(self).bucket_continuation_token,
            final(self).search_bar == old(self).search_bar,
            final(self).loading_state == old(self).loading_state,
            final(self).load_generation == old(self).load_generation,
    {
        let mut picked: Option<String> = Option::None;
        match self.bucket_list.selected_item() {
            Option::Some(bucket) => {
                match &bucket.name {
                    Option::Some(n) => {
                        picked = Option::Some(n.clone());
                    },
                    Option::None => {},
                }
            },
            Option::None => {},
        }
        match picked {
            Option::Some(n) => {
                self.current_bucket = Option::Some(n);
            },
            Option::None => {},
        }
    }

    /// Recomputes the filtered view of the bucket list against the current
    /// query, matching each bucket by its name.
    pub fn apply_current_search(&mut self)
        requires
            old(self).wf(),
        ensures
            final(self).wf(),
            filter_refreshed(
                old(self).bucket_list,
                final(self).bucket_list,
                old(self).search_bar.query@,
                bucket_key_fn(),
            ),
            final(self).search_bar == old(self).search_bar,
            same_but_list_and_search(*old(self), *final(self)),
    {
        let n = self.bucket_list.items.len();
        let mut keys: Vec<String> = Vec::new();
        let mut i: usize = 0;
        while i < n
            invariant
                i <= n,
                n == self.bucket_list.items@.len(),
                keys@.len() == i,
                forall|j: int|
                    0 <= j < i ==> (#[trigger] keys@[j])@ == spec_bucket_key(
                        self.bucket_list.items@[j],
                    ),
            decreases n - i,
        {
            let key = bucket_display_key(&self.bucket_list.items[i]);
            keys.push(key);
            i += 1;
        }
        self.bucket_list.apply_search(&self.search_bar, &keys);
        proof {
            assert forall|i: int| 0 <= i < self.bucket_list.items@.len() implies (
            self.bucket_list.filtered_indices@.contains(i as usize) <==> query_accepts(
                old(self).search_bar.query@,
                spec_bucket_key(self.bucket_list.items@[i]),
            )) by {
                assert(keys@[i]@ == spec_bucket_key(self.bucket_list.items@[i]));
            }
        }
    }

    /// Routes one action while the bucket list is in front: search editing
    /// when the bar is active, otherwise cursor movement, entering a
    /// bucket, paging the source, or refreshing.
    pub fn handle_bucket_action(
        &mut self,
        action: AppActions,
        app_mode: &mut AppMode,
        s3_object_state: &mut S3ObjectState,
    ) -> (r: Option<Effect>)
        requires
            old(self).wf(),
            old(s3_object_state).wf(),
            action is SearchInput ==> old(self).search_bar.query@.len() < usize::MAX,
        ensures
            final(self).wf(),
            final(s3_object_state).wf(),
            bucket_action_spec(
                *old(self),
                *old(s3_object_state),
                *old(app_mode),
                action,
                *final(self),
                *final(s3_object_state),
                *final(app_mode),
                r,
            ),
    {
        if self.search_bar.active {
            match action {
                AppActions::SearchInput(c) => {
                    self.search_bar.input(c);
                    self.apply_current_search();
                },
                AppActions::SearchDelete => {
                    self.search_bar.delete();
                    self.apply_current_search();
                },
                AppActions::Enter => {
                    self.apply_current_search();
                    self.search_bar.toggle();
                },
                AppActions::GoBack => {
                    self.search_bar.toggle();
                    self.apply_current_search();
                },
                _ => {},
            }
            return Option::None;
        }
        match action {
            AppActions::StartSearch => {
                self.search_bar.toggle();
                Option::None
            },
            AppActions::MoveDown => {
                self.bucket_list.next();
                Option::None
            },
            AppActions::MoveUp => {
                self.bucket_list.previous();
                Option::None
            },
            AppActions::MoveToTop => {
                self.bucket_list.first();
                Option::None
            },
            AppActions::MoveToBottom => {
                self.bucket_list.last();
                Option::None
            },
            AppActions::PageDown => {
                self.bucket_list.advance_next(10);
                Option::None
            },
            AppActions::PageUp => {
                self.bucket_list.advance_previous(10);
                Option::None
            },
            AppActions::HalfPageDown => {
                self.bucket_list.advance_next(5);
                Option::None
            },
            AppActions::HalfPageUp => {
                self.bucket_list.advance_previous(5);
                Option::None
            },
            AppActions::Enter => {
                self.select_bucket();
                let picked: Option<String> = match &self.current_bucket {
                    Option::Some(n) => Option::Some(n.clone()),
                    Option::None => Option::None,
                };
                match picked {
                    Option::Some(name) => {
                        s3_object_state.enter_bucket(name);
                        *app_mode = AppMode::ObjectList;
                        Option::Some(Effect::LoadObjects)
                    },
                    Option::None => Option::None,
                }
            },
            AppActions::Refresh => {
                self.bucket_list = ScrollableList::new(String::from_str("S3 Buckets"));
                self.bucket_continuation_token = Option::None;
                self.load_generation = next_generation(self.load_generation);
                Option::Some(Effect::LoadBuckets)
            },
            AppActions::LoadMore => {
                if self.bucket_continuation_token.is_some() {
                    Option::Some(Effect::LoadBuckets)
                } else {
                    Option::None
                }
            },
            AppActions::ClearSearch => {
                self.search_bar.clear();
                self.apply_current_search();
                Option::None
            },
            _ => Option::None,
        }
    }
}

/// One editing step on the active search bar, each followed by a filter
/// refresh: keystrokes edit the query, Enter applies the query and closes
/// the bar (which discards the query text), Escape closes the bar and
/// re-applies the then-empty query.  Other actions do nothing.
pub open spec fn bucket_search_edit(pre: S3BucketState, action: AppActions, post: S3BucketState) -> bool {
    match action {
        AppActions::SearchInput(c) => {
            &&& same_but_list_and_search(pre, post)
            &&& post.search_bar.active
            &&& post.search_bar.query@ == pre.search_bar.query@.insert(
                pre.search_bar.cursor_position as int,
                c,
            )
            &&& post.search_bar.cursor_position == pre.search_bar.cursor_position + 1
            &&& filter_refreshed(
                pre.bucket_list,
                post.bucket_list,
                post.search_bar.query@,
                bucket_key_fn(),
            )
        },
        AppActions::SearchDelete => {
            &&& same_but_list_and_search(pre, post)
            &&& post.search_bar.active
            &&& pre.search_bar.cursor_position > 0 ==> post.search_bar.query@
                == pre.search_bar.query@.remove(pre.search_bar.cursor_position - 1)
                && post.search_bar.cursor_position == pre.search_bar.cursor_position - 1
            &&& pre.search_bar.cursor_position == 0 ==> post.search_bar == pre.search_bar
            &&& filter_refreshed(
                pre.bucket_list,
                post.bucket_list,
                post.search_bar.query@,
                bucket_key_fn(),
            )
        },
        AppActions::Enter => {
            &&& same_but_list_and_search(pre, post)
            &&& filter_refreshed(
                pre.bucket_list,
                post.bucket_list,
                pre.search_bar.query@,
                bucket_key_fn(),
            )
            &&& !post.search_bar.active
            &&& post.search_bar.query@ == Seq::<char>::empty()
            &&& post.search_bar.cursor_position == 0
        },
        AppActions::GoBack => {
            &&& same_but_list_and_search(pre, post)
            &&& filter_refreshed(
                pre.bucket_list,
                post.bucket_list,
                Seq::<char>::empty(),
                bucket_key_fn(),
            )
            &&& !post.search_bar.active
            &&& post.search_bar.query@ == Seq::<char>::empty()
            &&& post.search_bar.cursor_position == 0
        },
        _ => post == pre,
    }
}

/// Only the bucket list's cursor moved, to `sel`; everything else is
/// unchanged.
pub open spec fn bucket_cursor_moved(pre: S3BucketState, post: S3BucketState, sel: Option<
    usize,
>) -> bool {
    &&& same_but_list_and_search(pre, post)
    &&& post.search_bar == pre.search_bar
    &&& post.bucket_list.items == pre.bucket_list.items
    &&& post.bucket_list.filtered_indices == pre.bucket_list.filtered_indices
    &&& post.bucket_list.title == pre.bucket_list.title
    &&& post.bucket_list.loading_more == pre.bucket_list.loading_more
    &&& post.bucket_list.has_more == pre.bucket_list.has_more
    &&& post.bucket_list.selected == sel
}

/// What one action does to the bucket-browsing view (and, when a bucket is
/// entered, to the object view and the mode).  With the search bar active,
/// actions edit the search (see [`bucket_search_edit`]); otherwise they
/// move the cursor, enter the selected bucket, page the source, or
/// refresh — refreshing starts a fresh context, so a new generation stamp
/// discards any fetch still in flight.
pub open spec fn bucket_action_spec(
    pre: S3BucketState,
    pre_obj: S3ObjectState,
    pre_mode: AppMode,
    action: AppActions,
    post: S3BucketState,
    post_obj: S3ObjectState,
    post_mode: AppMode,
    r: Option<Effect>,
) -> bool {
    if pre.search_bar.active {
        &&& post_mode == pre_mode
        &&& post_obj == pre_obj
        &&& r is None
        &&& bucket_search_edit(pre, action, post)
    } else {
        match action {
            AppActions::StartSearch => {
                &&& post_mode == pre_mode
                &&& post_obj == pre_obj
                &&& same_but_list_and_search(pre, post)
                &&& post.bucket_list == pre.bucket_list
                &&& bar_toggled(pre.search_bar, post.search_bar)
                &&& r is None
            },
            AppActions::MoveDown => post_mode == pre_mode && post_obj == pre_obj && r is None
                && bucket_cursor_moved(
                pre,
                post,
                next_selection(pre.bucket_list.filtered_indices@, pre.bucket_list.selected),
            ),
            AppActions::MoveUp => post_mode == pre_mode && post_obj == pre_obj && r is None
                && bucket_cursor_moved(
                pre,
                post,
                previous_selection(pre.bucket_list.filtered_indices@, pre.bucket_list.selected),
            ),
            AppActions::MoveToTop => post_mode == pre_mode && post_obj == pre_obj && r is None
                && bucket_cursor_moved(
                pre,
                post,
                (if pre.bucket_list.filtered_indices@.len() > 0 {
                    Option::Some(pre.bucket_list.filtered_indices@[0])
                } else {
                    pre.bucket_list.selected
                }),
            ),
            AppActions::MoveToBottom => post_mode == pre_mode && post_obj == pre_obj && r is None
                && bucket_cursor_moved(
                pre,
                post,
                (if pre.bucket_list.filtered_indices@.len() > 0 {
                    Option::Some(
                        pre.bucket_list.filtered_indices@[pre.bucket_list.filtered_indices@.len()
                            - 1],
                    )
                } else {
                    pre.bucket_list.selected
                }),
            ),
            AppActions::PageDown => post_mode == pre_mode && post_obj == pre_obj && r is None
                && bucket_cursor_moved(
                pre,
                post,
                selection_after_nexts(
                    pre.bucket_list.filtered_indices@,
                    pre.bucket_list.selected,
                    10,
                ),
            ),
            AppActions::PageUp => post_mode == pre_mode && post_obj == pre_obj && r is None
                && bucket_cursor_moved(
                pre,
                post,
                selection_after_previouses(
                    pre.bucket_list.filtered_indices@,
                    pre.bucket_list.selected,
                    10,
                ),
            ),
            AppActions::HalfPageDown => post_mode == pre_mode && post_obj == pre_obj && r is None
                && bucket_cursor_moved(
                pre,
                post,
                selection_after_nexts(
                    pre.bucket_list.filtered_indices@,
                    pre.bucket_list.selected,
                    5,
                ),
            ),
            AppActions::HalfPageUp => post_mode == pre_mode && post_obj == pre_obj && r is None
                && bucket_cursor_moved(
                pre,
                post,
                selection_after_previouses(
                    pre.bucket_list.filtered_indices@,
                    pre.bucket_list.selected,
                    5,
                ),
            ),
            AppActions::Enter => {
                let picked = (match pre.bucket_list.spec_selected_item() {
                    Option::Some(b) => match b.name {
                        Option::Some(n) => Option::Some(n),
                        Option::None => pre.current_bucket,
                    },
                    Option::None => pre.current_bucket,
                });
                &&& post.current_bucket == picked
                &&& post.bucket_list == pre.bucket_list
                &&& post.bucket_continuation_token == pre.bucket_continuation_token
                &&& post.search_bar == pre.search_bar
                &&& post.loading_state == pre.loading_state
                &&& post.load_generation == pre.load_generation
                &&& match picked {
                    Option::Some(b) => entered_bucket(pre_obj, post_obj, b)
                        && post_mode is ObjectList && r == Option::Some(Effect::LoadObjects),
                    Option::None => post_obj == pre_obj && post_mode == pre_mode && r is None,
                }
            },
            AppActions::Refresh => {
                &&& post_mode == pre_mode
                &&& post_obj == pre_obj
                &&& is_fresh(post.bucket_list, "S3 Buckets"@)
                &&& post.bucket_continuation_token is None
                &&& post.load_generation == spec_next_generation(pre.load_generation)
                &&& post.current_bucket == pre.current_bucket
                &&& post.search_bar == pre.search_bar
                &&& post.loading_state == pre.loading_state
                &&& r == Option::Some(Effect::LoadBuckets)
            },
            AppActions::LoadMore => post == pre && post_obj == pre_obj && post_mode == pre_mode
                && r == (if pre.bucket_continuation_token is Some {
                Option::Some(Effect::LoadBuckets)
            } else {
                Option::<Effect>::None
            }),
            AppActions::ClearSearch => {
                &&& post_mode == pre_mode
                &&& post_obj == pre_obj
                &&& same_but_list_and_search(pre, post)
                &&& post.search_bar.active == pre.search_bar.active
                &&& post.search_bar.query@ == Seq::<char>::empty()
                &&& post.search_bar.cursor_position == 0
                &&& filter_refreshed(
                    pre.bucket_list,
                    post.bucket_list,
                    Seq::<char>::empty(),
                    bucket_key_fn(),
                )
                &&& r is None
            },
            _ => post == pre && post_obj == pre_obj && post_mode == pre_mode && r is None,
        }
    }
}

} // verus!
