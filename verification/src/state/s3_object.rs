//! Object-browsing state for one bucket: the object list with its filter
//! and selection, server-side pagination with stale-completion discarding,
//! and the content preview with its formatted line cache.

use vstd::prelude::*;
use vstd::string::StringExecFns;

use crate::actions::AppActions;
use crate::list::{
    filter_refreshed, is_fresh, next_selection, previous_selection, selection_after_nexts,
    selection_after_previouses, ScrollableList,
};
use crate::preview::{ct_view, format_preview_text, preview_lines, wrap_preview_lines};
use crate::search::{bar_toggled, query_accepts, SearchBar};
use crate::state::{
    next_generation, spec_next_generation, AppMode, Effect, LoadingState, NotificationMessage,
    ObjectPageRequest, STATUS_MESSAGE_TTL_MS,
};

verus! {

/// What the remote store reports of one object: its key and its size in
/// bytes, either of which the store may omit.
pub struct ObjectItem {
    pub key: Option<String>,
    pub size: Option<i64>,
}

/// The text an object is matched and displayed by: its key, or a fixed
/// placeholder when the store omitted it.
pub open spec fn spec_object_key(o: ObjectItem) -> Seq<char> {
    match o.key {
        Option::Some(k) => k@,
        Option::None => "Unknown"@,
    }
}

/// The key function the object list is filtered by.
pub open spec fn object_key_fn() -> spec_fn(ObjectItem) -> Seq<char> {
    |o: ObjectItem| spec_object_key(o)
}

/// The display key of one object.
fn object_display_key(o: &ObjectItem) -> (r: String)
    ensures
        r@ == spec_object_key(*o),
{
    match &o.key {
        Option::Some(k) => k.clone(),
        Option::None => String::from_str("Unknown"),
    }
}

/// The state of the object-browsing view.
pub struct S3ObjectState {
    pub current_bucket: String,
    pub object_list: ScrollableList<ObjectItem>,
    pub current_object: Option<String>,
    pub object_continuation_token: Option<String>,
    pub current_object_content_type: Option<String>,
    pub preview_object: bool,
    pub object_preview: Option<String>,
    pub processed_preview_lines: Option<Vec<String>>,
    pub processed_preview_width: Option<u16>,
    pub preview_scroll_offset: usize,
    pub search_bar: SearchBar,
    pub notification: Option<NotificationMessage>,
    pub loading_state: LoadingState,
    pub load_generation: u64,
}

/// The two states agree on everything except the object list and the
/// search bar.
pub open spec fn same_but_list_and_search(pre: S3ObjectState, post: S3ObjectState) -> bool {
    &&& post.current_bucket == pre.current_bucket
    &&& post.current_object == pre.current_object
    &&& post.object_continuation_token == pre.object_continuation_token
    &&& post.current_object_content_type == pre.current_object_content_type
    &&& post.preview_object == pre.preview_object
    &&& post.object_preview == pre.object_preview
    &&& post.processed_preview_lines == pre.processed_preview_lines
    &&& post.processed_preview_width == pre.processed_preview_width
    &&& post.preview_scroll_offset == pre.preview_scroll_offset
    &&& post.notification == pre.notification
    &&& post.loading_state == pre.loading_state
    &&& post.load_generation == pre.load_generation
}

/// The object view after a bucket was entered: everything is reset for the
/// new context — a fresh titled list, no tokens, no preview, a fresh
/// search bar, and a new generation stamp so completions for the old
/// context are discarded.
pub open spec fn entered_bucket(pre: S3ObjectState, post: S3ObjectState, bucket: String) -> bool {
    &&& post.current_bucket == bucket
    &&& is_fresh(post.object_list, "Contents of "@ + bucket@)
    &&& post.current_object is None
    &&& post.object_continuation_token is None
    &&& post.current_object_content_type is None
    &&& post.preview_object == false
    &&& post.object_preview is None
    &&& post.processed_preview_lines is None
    &&& post.processed_preview_width is None
    &&& post.preview_scroll_offset == 0
    &&& post.search_bar.query@ == Seq::<char>::empty()
    &&& post.search_bar.active == false
    &&& post.search_bar.cursor_position == 0
    &&& post.notification == pre.notification
    &&& post.loading_state is Idle
    &&& post.load_generation == spec_next_generation(pre.load_generation)
}

impl S3ObjectState {
    /// The list and the search bar are well-formed.
    pub open spec fn wf(&self) -> bool {
        &&& self.object_list.wf()
        &&& self.search_bar.wf()
        &&& self.processed_preview_width matches Option::Some(w) ==> (
        self.object_preview matches Option::Some(raw)
            && self.processed_preview_lines matches Option::Some(lines) && lines.deep_view()
            == preview_lines(raw@, ct_view(self.current_object_content_type), w as int))
        &&& self.processed_preview_lines matches Option::Some(lines)
            ==> self.preview_scroll_offset <= max_scroll(lines@.len() as int)
    }

    /// A fresh object view: empty list titled "Bucket Contents", nothing
    /// selected, no preview, no tokens, generation 0.
    pub fn new() -> (r: Self)
        ensures
            r.wf(),
            r.current_bucket@ == Seq::<char>::empty(),
            is_fresh(r.object_list, "Bucket Contents"@),
            r.current_object is None,
            r.object_continuation_token is None,
            r.current_object_content_type is None,
            r.preview_object == false,
            r.object_preview is None,
            r.processed_preview_lines is None,
            r.processed_preview_width is None,
            r.preview_scroll_offset == 0,
            r.search_bar.query@ == Seq::<char>::empty(),
            r.search_bar.active == false,
            r.search_bar.cursor_position == 0,
            r.notification is None,
            r.loading_state is Idle,
            r.load_generation == 0,
    {
        S3ObjectState {
            current_bucket: String::new(),
            object_list: ScrollableList::new(String::from_str("Bucket Contents")),
            current_object: Option::None,
            object_continuation_token: Option::None,
            current_object_content_type: Option::None,
            preview_object: false,
            object_preview: Option::None,
            processed_preview_lines: Option::None,
            processed_preview_width: Option::None,
            preview_scroll_offset: 0,
            search_bar: SearchBar::default(),
            notification: Option::None,
            loading_state: LoadingState::Idle,
            load_generation: 0,
        }
    }

    /// Resets the whole view for a newly entered bucket.
    pub fn enter_bucket(&mut self, bucket: String)
        requires
            old(self).wf(),
        ensures
            final(self).wf(),
            entered_bucket(*old(self), *final(self), bucket),
    {
        let title = String::from_str("Contents of ").concat(bucket.as_str());
        self.object_list = ScrollableList::new(title);
        self.current_bucket = bucket;
        self.current_object = Option::None;
        self.object_continuation_token = Option::None;
        self.current_object_content_type = Option::None;
        self.preview_object = false;
        self.object_preview = Option::None;
        self.processed_preview_lines = Option::None;
        self.processed_preview_width = Option::None;
        self.preview_scroll_offset = 0;
        self.search_bar = SearchBar::default();
        self.loading_state = LoadingState::Idle;
        self.load_generation = next_generation(self.load_generation);
    }

    /// Starts a page fetch, unless one is already in flight (the
    /// re-entrancy guard).  The returned request carries the continuation
    /// token to round-trip, the server-side key filter (the current query,
    /// when non-empty), and the generation stamp to hand back on
    /// completion.
    pub fn begin_load_objects(&mut self) -> (r: Option<ObjectPageRequest>)
        requires
            old(self).wf(),
        ensures
            final(self).wf(),
            old(self).loading_state is Loading ==> r is None && *final(self) == *old(self),
            !(old(self).loading_state is Loading) ==> {
                &&& r matches Option::Some(req)
                &&& req.generation == old(self).load_generation
                &&& req.bucket == old(self).current_bucket
                &&& req.continuation_token == old(self).object_continuation_token
                &&& req.filter == (if old(self).search_bar.query@.len() > 0 {
                    Option::Some(old(self).search_bar.query)
                } else {
                    Option::<String>::None
                })
                &&& final(self).loading_state is Loading
                &&& same_but_loading_state(*old(self), *final(self))
            },
    {
        match self.loading_state {
            LoadingState::Loading => Option::None,
            _ => {
                self.loading_state = LoadingState::Loading;
                let filter: Option<String> = if self.search_bar.query.as_str().is_empty() {
                    Option::None
                } else {
                    Option::Some(self.search_bar.query.clone())
                };
                Option::Some(
                    ObjectPageRequest {
                        generation: self.load_generation,
                        bucket: self.current_bucket.clone(),
                        continuation_token: self.object_continuation_token.clone(),
                        filter,
                    },
                )
            },
        }
    }

    /// Applies a completed page fetch: appends the page, records the new
    /// continuation token and whether more pages exist, makes everything
    /// visible again, and selects the first entry.  A completion carrying a
    /// stale generation stamp — its context was abandoned — is discarded
    /// whole.
    pub fn finish_load_objects(
        &mut self,
        generation: u64,
        new_items: Vec<ObjectItem>,
        next_token: Option<String>,
    )
        requires
            old(self).wf(),
        ensures
            final(self).wf(),
            generation != old(self).load_generation ==> *final(self) == *old(self),
            generation == old(self).load_generation ==> {
                &&& final(self).object_list.items@ == old(self).object_list.items@ + new_items@
                &&& final(self).object_list.title == old(self).object_list.title
                &&& final(self).object_list.loading_more == false
                &&& final(self).object_list.has_more == (next_token is Some)
                &&& final(self).object_list.filtered_indices@ == Seq::new(
                    old(self).object_list.items@.len() + new_items@.len(),
                    |i: int| i as usize,
                )
                &&& final(self).object_list.selected == (if old(self).object_list.items@.len()
                    + new_items@.len() > 0 {
                    Option::Some(0usize)
                } else {
                    old(self).object_list.selected
                })
                &&& final(self).object_continuation_token == next_token
                &&& final(self).loading_state is Loaded
                &&& final(self).current_bucket == old(self).current_bucket
                &&& final(self).current_object == old(self).current_object
                &&& final(self).current_object_content_type == old(
                    self,
                ).current_object_content_type
                &&& final(self).preview_object == old(self).preview_object
                &&& final(self).object_preview == old(self).object_preview
                &&& final(self).processed_preview_lines == old(self).processed_preview_lines
                &&& final(self).processed_preview_width == old(self).processed_preview_width
                &&& final(self).preview_scroll_offset == old(self).preview_scroll_offset
                &&& final(self).search_bar == old(self).search_bar
                &&& final(self).notification == old(self).notification
                &&& final(self).load_generation == old(self).load_generation
            },
    {
        if generation != self.load_generation {
            return ;
        }
        self.object_list.set_has_more(next_token.is_some());
        self.object_continuation_token = next_token;
        self.object_list.append_items(new_items);
        self.object_list.reset_filter_to_all();
        self.object_list.first();
        self.loading_state = LoadingState::Loaded;
        proof {
            if old(self).object_list.items@.len() + new_items@.len() > 0 {
                assert(self.object_list.filtered_indices@[0] == 0usize);
            }
        }
    }

    /// Records a failed page fetch, unless its generation stamp is stale.
    pub fn fail_load_objects(&mut self, generation: u64)
        requires
            old(self).wf(),
        ensures
            final(self).wf(),
            generation != old(self).load_generation ==> *final(self) == *old(self),
            generation == old(self).load_generation ==> final(self).loading_state is Error
                && same_but_loading_state(*old(self), *final(self)),
    {
        if generation == self.load_generation {
            self.loading_state = LoadingState::Error;
        }
    }

    /// Posts a transient status line stamped with the caller's clock.
    pub fn update_status(&mut self, message: String, now_ms: u64)
        requires
            old(self).wf(),
        ensures
            final(self).wf(),
            final(self).notification matches Option::Some(n) && n.status_message == message
                && n.status_message_time_ms == now_ms,
            same_but_notification(*old(self), *final(self)),
    {
        self.notification = Option::Some(
            NotificationMessage { status_message: message, status_message_time_ms: now_ms },
        );
    }

    /// Drops the status line once it has outlived its display time.
    pub fn clear_stale_notification(&mut self, now_ms: u64)
        requires
            old(self).wf(),
        ensures
            final(self).wf(),
            same_but_notification(*old(self), *final(self)),
            final(self).notification == (match old(self).notification {
                Option::Some(n) => if now_ms >= n.status_message_time_ms && now_ms
                    - n.status_message_time_ms > STATUS_MESSAGE_TTL_MS {
                    Option::<NotificationMessage>::None
                } else {
                    old(self).notification
                },
                Option::None => Option::<NotificationMessage>::None,
            }),
    {
        let mut stale = false;
        match &self.notification {
            Option::Some(n) => {
                if now_ms >= n.status_message_time_ms && now_ms - n.status_message_time_ms
                    > STATUS_MESSAGE_TTL_MS {
                    stale = true;
                }
            },
            Option::None => {},
        }
        if stale {
            self.notification = Option::None;
        }
    }

    /// Recomputes the filtered view of the object list against the current
    /// query, matching each object by its key.
    pub fn apply_current_search(&mut self)
        requires
            old(self).wf(),
        ensures
            final(self).wf(),
            filter_refreshed(
                old(self).object_list,
                final(self).object_list,
                old(self).search_bar.query@,
                object_key_fn(),
            ),
            final(self).search_bar == old(self).search_bar,
            same_but_list_and_search(*old(self), *final(self)),
    {
        let n = self.object_list.items.len();
        let mut keys: Vec<String> = Vec::new();
        let mut i: usize = 0;
        while i < n
            invariant
                i <= n,
                n == self.object_list.items@.len(),
                keys@.len() == i,
                forall|j: int|
                    0 <= j < i ==> (#[trigger] keys@[j])@ == spec_object_key(
                        self.object_list.items@[j],
                    ),
            decreases n - i,
        {
            let key = object_display_key(&self.object_list.items[i]);
            keys.push(key);
            i += 1;
        }
        self.object_list.apply_search(&self.search_bar, &keys);
        proof {
            assert forall|i: int| 0 <= i < self.object_list.items@.len() implies (
            self.object_list.filtered_indices@.contains(i as usize) <==> query_accepts(
                old(self).search_bar.query@,
                spec_object_key(self.object_list.items@[i]),
            )) by {
                assert(keys@[i]@ == spec_object_key(self.object_list.items@[i]));
            }
        }
    }

    /// Starts a content fetch for the preview pane: marks the view loading
    /// and drops the stale preview.  Returns the generation stamp the
    /// completion must hand back.
    pub fn begin_preview_load(&mut self) -> (generation: u64)
        requires
            old(self).wf(),
        ensures
            final(self).wf(),
            generation == old(self).load_generation,
            final(self).loading_state is Loading,
            final(self).object_preview is None,
            final(self).current_object_content_type is None,
            final(self).processed_preview_lines is None,
            final(self).processed_preview_width is None,
            final(self).current_bucket == old(self).current_bucket,
            final(self).object_list == old(self).object_list,
            final(self).current_object == old(self).current_object,
            final(self).object_continuation_token == old(self).object_continuation_token,
            final(self).preview_object == old(self).preview_object,
            final(self).preview_scroll_offset == old(self).preview_scroll_offset,
            final(self).search_bar == old(self).search_bar,
            final(self).notification == old(self).notification,
            final(self).load_generation == old(self).load_generation,
    {
        self.loading_state = LoadingState::Loading;
        self.object_preview = Option::None;
        self.current_object_content_type = Option::None;
        self.processed_preview_lines = Option::None;
        self.processed_preview_width = Option::None;
        self.load_generation
    }

    /// Applies a fetched object content to the preview pane: remembers the
    /// key, stores the payload and its content type, invalidates the line
    /// cache, rewinds the scroll, and opens the preview.  A completion
    /// carrying a stale generation stamp is discarded whole.
    pub fn finish_preview_load(
        &mut self,
        generation: u64,
        key: String,
        content: String,
        content_type: Option<String>,
    )
        requires
            old(self).wf(),
        ensures
            final(self).wf(),
            generation != old(self).load_generation ==> *final(self) == *old(self),
            generation == old(self).load_generation ==> {
                &&& final(self).loading_state is Loaded
                &&& final(self).current_object == Option::Some(key)
                &&& final(self).object_preview == Option::Some(content)
                &&& final(self).current_object_content_type == content_type
                &&& final(self).processed_preview_lines is None
                &&& final(self).processed_preview_width is None
                &&& final(self).preview_scroll_offset == 0
                &&& final(self).preview_object == true
                &&& final(self).current_bucket == old(self).current_bucket
                &&& final(self).object_list == old(self).object_list
                &&& final(self).object_continuation_token == old(self).object_continuation_token
                &&& final(self).search_bar == old(self).search_bar
                &&& final(self).notification == old(self).notification
                &&& final(self).load_generation == old(self).load_generation
            },
    {
        if generation != self.load_generation {
            return ;
        }
        self.loading_state = LoadingState::Loaded;
        self.current_object = Option::Some(key);
        self.object_preview = Option::Some(content);
        self.current_object_content_type = content_type;
        self.processed_preview_lines = Option::None;
        self.processed_preview_width = Option::None;
        self.preview_scroll_offset = 0;
        self.preview_object = true;
    }

    /// Records a failed content fetch, unless its generation stamp is
    /// stale.
    pub fn fail_preview_load(&mut self, generation: u64)
        requires
            old(self).wf(),
        ensures
            final(self).wf(),
            generation != old(self).load_generation ==> *final(self) == *old(self),
            generation == old(self).load_generation ==> final(self).loading_state is Error
                && same_but_loading_state(*old(self), *final(self)),
    {
        if generation == self.load_generation {
            self.loading_state = LoadingState::Error;
        }
    }

    /// Rebuilds the cached display lines for the preview pane from the raw
    /// payload, the content type and the render width.  With no payload
    /// there are no lines.
    pub fn prepare_display_lines_for_preview(&mut self, available_width: u16)
        requires
            old(self).wf(),
        ensures
            final(self).wf(),
            old(self).object_preview is None ==> final(self).processed_preview_lines is None
                && final(self).processed_preview_width is None,
            old(self).object_preview matches Option::Some(raw)
                ==> final(self).processed_preview_lines matches Option::Some(lines)
                && lines.deep_view() == preview_lines(
                raw@,
                ct_view(old(self).current_object_content_type),
                available_width as int,
            ) && final(self).processed_preview_width == Option::Some(available_width)
                && final(self).preview_scroll_offset == clamped_scroll(
                old(self).preview_scroll_offset,
                lines@.len() as int,
            ),
            old(self).object_preview is None ==> final(self).preview_scroll_offset == old(
                self,
            ).preview_scroll_offset,
            final(self).current_bucket == old(self).current_bucket,
            final(self).object_list == old(self).object_list,
            final(self).current_object == old(self).current_object,
            final(self).object_continuation_token == old(self).object_continuation_token,
            final(self).current_object_content_type == old(self).current_object_content_type,
            final(self).preview_object == old(self).preview_object,
            final(self).object_preview == old(self).object_preview,
            final(self).search_bar == old(self).search_bar,
            final(self).notification == old(self).notification,
            final(self).loading_state == old(self).loading_state,
            final(self).load_generation == old(self).load_generation,
    {
        if self.object_preview.is_none() {
            self.processed_preview_lines = Option::None;
            self.processed_preview_width = Option::None;
            return ;
        }
        let raw = self.object_preview.as_ref().unwrap().clone();
        let text = format_preview_text(&raw, &self.current_object_content_type);
        let lines = wrap_preview_lines(&text, available_width);
        let cap = lines.len().saturating_sub(1);
        if self.preview_scroll_offset > cap {
            self.preview_scroll_offset = cap;
        }
        self.processed_preview_lines = Option::Some(lines);
        self.processed_preview_width = Option::Some(available_width);
    }

    /// Rebuilds the line cache only when it is missing or was built for
    /// another width: the cache is invalidated by payload, content-type
    /// and width changes alike, and kept otherwise.
    pub fn ensure_preview_lines(&mut self, available_width: u16)
        requires
            old(self).wf(),
        ensures
            final(self).wf(),
            old(self).object_preview is None ==> *final(self) == *old(self),
            old(self).object_preview matches Option::Some(raw)
                ==> final(self).processed_preview_lines matches Option::Some(lines)
                && lines.deep_view() == preview_lines(
                raw@,
                ct_view(old(self).current_object_content_type),
                available_width as int,
            ) && final(self).processed_preview_width == Option::Some(available_width)
                && final(self).preview_scroll_offset == clamped_scroll(
                old(self).preview_scroll_offset,
                lines@.len() as int,
            ),
            final(self).current_bucket == old(self).current_bucket,
            final(self).object_list == old(self).object_list,
            final(self).current_object == old(self).current_object,
            final(self).object_continuation_token == old(self).object_continuation_token,
            final(self).current_object_content_type == old(self).current_object_content_type,
            final(self).preview_object == old(self).preview_object,
            final(self).object_preview == old(self).object_preview,
            final(self).search_bar == old(self).search_bar,
            final(self).notification == old(self).notification,
            final(self).loading_state == old(self).loading_state,
            final(self).load_generation == old(self).load_generation,
    {
        if self.object_preview.is_none() {
            return ;
        }
        let cache_ok = match (&self.processed_preview_lines, self.processed_preview_width) {
            (Option::Some(_), Option::Some(w)) => w == available_width,
            _ => false,
        };
        if !cache_ok {
            self.prepare_display_lines_for_preview(available_width);
        }
    }

    /// The window of cached lines the preview pane shows: the first line
    /// drawn and the line after the last one, for a pane `visible` lines
    /// tall.  The window starts at the scroll offset, pulled back so that
    /// the pane is as full as the cache allows.
    pub fn preview_window(&self, visible: usize) -> (r: (usize, usize))
        ensures
            match self.processed_preview_lines {
                Option::Some(lines) => {
                    &&& r.0 == (if self.preview_scroll_offset as int <= lines@.len()
                        - visible {
                        self.preview_scroll_offset as int
                    } else if lines@.len() >= visible {
                        lines@.len() - visible
                    } else {
                        0
                    })
                    &&& r.1 == (if r.0 + visible <= lines@.len() {
                        r.0 + visible
                    } else {
                        lines@.len() as int
                    })
                },
                Option::None => r == (0usize, 0usize),
            },
    {
        match &self.processed_preview_lines {
            Option::Some(lines) => {
                let len = lines.len();
                let cap = len.saturating_sub(visible);
                let start = if self.preview_scroll_offset <= cap {
                    self.preview_scroll_offset
                } else {
                    cap
                };
                let end = if visible <= len - start {
                    start + visible
                } else {
                    len
                };
                (start, end)
            },
            Option::None => (0, 0),
        }
    }

    /// Routes one action while the object list is in front: search editing
    /// when the bar is active, otherwise cursor movement, preview, paging,
    /// download, refresh, or going back to the bucket list.
    pub fn handle_object_action(&mut self, action: AppActions, app_mode: &mut AppMode) -> (r:
        Option<Effect>)
        requires
            old(self).wf(),
            action is SearchInput ==> old(self).search_bar.query@.len() < usize::MAX,
        ensures
            final(self).wf(),
            object_action_spec(
                *old(self),
                *old(app_mode),
                action,
                *final(self),
                *final(app_mode),
                r,
            ),
    {
        if self.search_bar.active {
            match action {
                AppActions::SearchInput(c) => {
                    self.search_bar.input(c);
                    self.apply_current_search();
                },
                AppActions::SearchDelete => {
                    self.search_bar.delete();
                    self.apply_current_search();
                },
                AppActions::Enter => {
                    self.apply_current_search();
                    self.search_bar.toggle();
                },
                AppActions::GoBack => {
                    self.search_bar.toggle();
                    self.apply_current_search();
                },
                _ => {},
            }
            return Option::None;
        }
        match action {
            AppActions::GoBack => {
                *app_mode = AppMode::BucketList;
                self.object_list = ScrollableList::new(String::new());
                self.current_object = Option::None;
                self.object_continuation_token = Option::None;
                self.load_generation = next_generation(self.load_generation);
                Option::None
            },
            AppActions::StartSearch => {
                self.search_bar.toggle();
                Option::None
            },
            AppActions::MoveDown => {
                self.object_list.next();
                Option::None
            },
            AppActions::MoveUp => {
                self.object_list.previous();
                Option::None
            },
            AppActions::MoveToTop => {
                self.object_list.first();
                Option::None
            },
            AppActions::MoveToBottom => {
                self.object_list.last();
                Option::None
            },
            AppActions::PageDown => {
                self.object_list.advance_next(10);
                Option::None
            },
            AppActions::PageUp => {
                self.object_list.advance_previous(10);
                Option::None
            },
            AppActions::HalfPageDown => {
                self.object_list.advance_next(5);
                Option::None
            },
            AppActions::HalfPageUp => {
                self.object_list.advance_previous(5);
                Option::None
            },
            AppActions::Enter => {
                let mut r: Option<Effect> = Option::None;
                match self.object_list.selected_item() {
                    Option::Some(item) => {
                        match &item.key {
                            Option::Some(k) => {
                                r = Option::Some(Effect::FetchObject { key: k.clone() });
                            },
                            Option::None => {},
                        }
                    },
                    Option::None => {},
                }
                r
            },
            AppActions::Download => {
                match &self.current_object {
                    Option::Some(k) => Option::Some(Effect::DownloadObject { key: k.clone() }),
                    Option::None => Option::None,
                }
            },
            AppActions::Refresh => {
                self.object_list = ScrollableList::new(String::from_str("Objects"));
                self.object_continuation_token = Option::None;
                self.load_generation = next_generation(self.load_generation);
                Option::Some(Effect::LoadObjects)
            },
            AppActions::LoadMore => {
                if self.object_continuation_token.is_some() {
                    Option::Some(Effect::LoadObjects)
                } else {
                    Option::None
                }
            },
            AppActions::ClearSearch => {
                self.search_bar.clear();
                self.apply_current_search();
                Option::None
            },
            _ => Option::None,
        }
    }

    /// Moves the scroll offset `n` lines down, staying on the last cached
    /// line while a line cache is present.
    fn scroll_down(&mut self, n: usize)
        requires
            old(self).wf(),
        ensures
            final(self).wf(),
            scrolled_down(*old(self), *final(self), n),
    {
        let target = self.preview_scroll_offset.saturating_add(n);
        let mut limit: Option<usize> = Option::None;
        match &self.processed_preview_lines {
            Option::Some(lines) => {
                limit = Option::Some(lines.len().saturating_sub(1));
            },
            Option::None => {},
        }
        self.preview_scroll_offset = match limit {
            Option::Some(cap) => if target > cap {
                cap
            } else {
                target
            },
            Option::None => target,
        };
    }

    /// Routes one action while the preview pane is in front: scrolling,
    /// closing the pane, downloading, or refetching the content.
    pub fn handle_preview_action(&mut self, action: AppActions) -> (r: Option<Effect>)
        requires
            old(self).wf(),
        ensures
            final(self).wf(),
            preview_action_spec(*old(self), action, *final(self), r),
    {
        match action {
            AppActions::GoBack => {
                self.preview_object = false;
                Option::None
            },
            AppActions::MoveDown => {
                self.scroll_down(1);
                Option::None
            },
            AppActions::MoveUp => {
                self.preview_scroll_offset = self.preview_scroll_offset.saturating_sub(1);
                Option::None
            },
            AppActions::MoveToTop => {
                self.preview_scroll_offset = 0;
                Option::None
            },
            AppActions::MoveToBottom => {
                let mut line_count: Option<usize> = Option::None;
                match &self.processed_preview_lines {
                    Option::Some(lines) => {
                        line_count = Option::Some(lines.len());
                    },
                    Option::None => {},
                }
                match line_count {
                    Option::Some(n) => {
                        self.preview_scroll_offset = n.saturating_sub(1);
                    },
                    Option::None => {},
                }
                Option::None
            },
            AppActions::PageDown => {
                self.scroll_down(10);
                Option::None
            },
            AppActions::PageUp => {
                self.preview_scroll_offset = self.preview_scroll_offset.saturating_sub(10);
                Option::None
            },
            AppActions::HalfPageDown => {
                self.scroll_down(5);
                Option::None
            },
            AppActions::HalfPageUp => {
                self.preview_scroll_offset = self.preview_scroll_offset.saturating_sub(5);
                Option::None
            },
            AppActions::Download => {
                match &self.current_object {
                    Option::Some(k) => Option::Some(Effect::DownloadObject { key: k.clone() }),
                    Option::None => Option::None,
                }
            },
            AppActions::Refresh => {
                match &self.current_object {
                    Option::Some(k) => Option::Some(Effect::FetchObject { key: k.clone() }),
                    Option::None => Option::None,
                }
            },
            _ => Option::None,
        }
    }
}

/// Only the object list's cursor moved, to `sel`; everything else is
/// unchanged.
pub open spec fn list_cursor_moved(pre: S3ObjectState, post: S3ObjectState, sel: Option<
    usize,
>) -> bool {
    &&& same_but_list_and_search(pre, post)
    &&& post.search_bar == pre.search_bar
    &&& post.object_list.items == pre.object_list.items
    &&& post.object_list.filtered_indices == pre.object_list.filtered_indices
    &&& post.object_list.title == pre.object_list.title
    &&& post.object_list.loading_more == pre.object_list.loading_more
    &&& post.object_list.has_more == pre.object_list.has_more
    &&& post.object_list.selected == sel
}

/// The largest scroll offset the line cache admits: the last cached line,
/// or 0 when there are no lines.
pub open spec fn max_scroll(lines_len: int) -> int {
    if lines_len > 0 {
        lines_len - 1
    } else {
        0
    }
}

/// `offset` pulled back into the line cache's range.
pub open spec fn clamped_scroll(offset: usize, lines_len: int) -> int {
    if offset <= max_scroll(lines_len) {
        offset as int
    } else {
        max_scroll(lines_len)
    }
}

/// The view with only the preview scroll offset changed, to `offset`.
pub open spec fn scrolled_to(pre: S3ObjectState, post: S3ObjectState, offset: int) -> bool {
    &&& post == (S3ObjectState { preview_scroll_offset: post.preview_scroll_offset, ..pre })
    &&& post.preview_scroll_offset == offset
}

/// The view scrolled `n` lines down: the offset grows by `n`, saturating
/// at the top of its range, and is pulled back to the last cached line
/// while a line cache is present.
pub open spec fn scrolled_down(pre: S3ObjectState, post: S3ObjectState, n: usize) -> bool {
    scrolled_to(
        pre,
        post,
        (match pre.processed_preview_lines {
            Option::Some(lines) => clamped_scroll(
                pre.preview_scroll_offset.saturating_add(n),
                lines@.len() as int,
            ),
            Option::None => pre.preview_scroll_offset.saturating_add(n) as int,
        }),
    )
}

/// The key of the currently selected object, when an object with a key is
/// selected.
pub open spec fn spec_selected_key(pre: S3ObjectState) -> Option<String> {
    match pre.object_list.spec_selected_item() {
        Option::Some(o) => o.key,
        Option::None => Option::None,
    }
}

/// One editing step on the active search bar, each followed by a filter
/// refresh: keystrokes edit the query, Enter applies the query and closes
/// the bar (which discards the query text), Escape closes the bar and
/// re-applies the then-empty query.  Other actions do nothing.
pub open spec fn object_search_edit(pre: S3ObjectState, action: AppActions, post: S3ObjectState) -> bool {
    match action {
        AppActions::SearchInput(c) => {
            &&& same_but_list_and_search(pre, post)
            &&& post.search_bar.active
            &&& post.search_bar.query@ == pre.search_bar.query@.insert(
                pre.search_bar.cursor_position as int,
                c,
            )
            &&& post.search_bar.cursor_position == pre.search_bar.cursor_position + 1
            &&& filter_refreshed(
                pre.object_list,
                post.object_list,
                post.search_bar.query@,
                object_key_fn(),
            )
        },
        AppActions::SearchDelete => {
            &&& same_but_list_and_search(pre, post)
            &&& post.search_bar.active
            &&& pre.search_bar.cursor_position > 0 ==> post.search_bar.query@
                == pre.search_bar.query@.remove(pre.search_bar.cursor_position - 1)
                && post.search_bar.cursor_position == pre.search_bar.cursor_position - 1
            &&& pre.search_bar.cursor_position == 0 ==> post.search_bar == pre.search_bar
            &&& filter_refreshed(
                pre.object_list,
                post.object_list,
                post.search_bar.query@,
                object_key_fn(),
            )
        },
        AppActions::Enter => {
            &&& same_but_list_and_search(pre, post)
            &&& filter_refreshed(
                pre.object_list,
                post.object_list,
                pre.search_bar.query@,
                object_key_fn(),
            )
            &&& !post.search_bar.active
            &&& post.search_bar.query@ == Seq::<char>::empty()
            &&& post.search_bar.cursor_position == 0
        },
        AppActions::GoBack => {
            &&& same_but_list_and_search(pre, post)
            &&& filter_refreshed(
                pre.object_list,
                post.object_list,
                Seq::<char>::empty(),
                object_key_fn(),
            )
            &&& !post.search_bar.active
            &&& post.search_bar.query@ == Seq::<char>::empty()
            &&& post.search_bar.cursor_position == 0
        },
        _ => post == pre,
    }
}

/// What one action does to the object-browsing view.  With the search bar
/// active, actions edit the search (see [`object_search_edit`]); otherwise
/// they move the cursor, open the preview, page the source, download,
/// refresh, or go back to the bucket list — going back and refreshing
/// start a fresh context, so a new generation stamp discards any fetch
/// still in flight.
pub open spec fn object_action_spec(
    pre: S3ObjectState,
    pre_mode: AppMode,
    action: AppActions,
    post: S3ObjectState,
    post_mode: AppMode,
    r: Option<Effect>,
) -> bool {
    if pre.search_bar.active {
        &&& post_mode == pre_mode
        &&& r is None
        &&& object_search_edit(pre, action, post)
    } else {
        match action {
            AppActions::GoBack => {
                &&& post_mode is BucketList
                &&& is_fresh(post.object_list, Seq::<char>::empty())
                &&& post.current_object is None
                &&& post.object_continuation_token is None
                &&& post.load_generation == spec_next_generation(pre.load_generation)
                &&& post.current_bucket == pre.current_bucket
                &&& post.current_object_content_type == pre.current_object_content_type
                &&& post.preview_object == pre.preview_object
                &&& post.object_preview == pre.object_preview
                &&& post.processed_preview_lines == pre.processed_preview_lines
                &&& post.processed_preview_width == pre.processed_preview_width
                &&& post.preview_scroll_offset == pre.preview_scroll_offset
                &&& post.search_bar == pre.search_bar
                &&& post.notification == pre.notification
                &&& post.loading_state == pre.loading_state
                &&& r is None
            },
            AppActions::StartSearch => {
                &&& post_mode == pre_mode
                &&& same_but_list_and_search(pre, post)
                &&& post.object_list == pre.object_list
                &&& bar_toggled(pre.search_bar, post.search_bar)
                &&& r is None
            },
            AppActions::MoveDown => post_mode == pre_mode && r is None && list_cursor_moved(
                pre,
                post,
                next_selection(pre.object_list.filtered_indices@, pre.object_list.selected),
            ),
            AppActions::MoveUp => post_mode == pre_mode && r is None && list_cursor_moved(
                pre,
                post,
                previous_selection(pre.object_list.filtered_indices@, pre.object_list.selected),
            ),
            AppActions::MoveToTop => post_mode == pre_mode && r is None && list_cursor_moved(
                pre,
                post,
                (if pre.object_list.filtered_indices@.len() > 0 {
                    Option::Some(pre.object_list.filtered_indices@[0])
                } else {
                    pre.object_list.selected
                }),
            ),
            AppActions::MoveToBottom => post_mode == pre_mode && r is None && list_cursor_moved(
                pre,
                post,
                (if pre.object_list.filtered_indices@.len() > 0 {
                    Option::Some(
                        pre.object_list.filtered_indices@[pre.object_list.filtered_indices@.len()
                            - 1],
                    )
                } else {
                    pre.object_list.selected
                }),
            ),
            AppActions::PageDown => post_mode == pre_mode && r is None && list_cursor_moved(
                pre,
                post,
                selection_after_nexts(
                    pre.object_list.filtered_indices@,
                    pre.object_list.selected,
                    10,
                ),
            ),
            AppActions::PageUp => post_mode == pre_mode && r is None && list_cursor_moved(
                pre,
                post,
                selection_after_previouses(
                    pre.object_list.filtered_indices@,
                    pre.object_list.selected,
                    10,
                ),
            ),
            AppActions::HalfPageDown => post_mode == pre_mode && r is None && list_cursor_moved(
                pre,
                post,
                selection_after_nexts(
                    pre.object_list.filtered_indices@,
                    pre.object_list.selected,
                    5,
                ),
            ),
            AppActions::HalfPageUp => post_mode == pre_mode && r is None && list_cursor_moved(
                pre,
                post,
                selection_after_previouses(
                    pre.object_list.filtered_indices@,
                    pre.object_list.selected,
                    5,
                ),
            ),
            AppActions::Enter => post == pre && post_mode == pre_mode && r == (match
                spec_selected_key(pre) {
                Option::Some(k) => Option::Some(Effect::FetchObject { key: k }),
                Option::None => Option::<Effect>::None,
            }),
            AppActions::Download => post == pre && post_mode == pre_mode && r == (match
                pre.current_object {
                Option::Some(k) => Option::Some(Effect::DownloadObject { key: k }),
                Option::None => Option::<Effect>::None,
            }),
            AppActions::Refresh => {
                &&& post_mode == pre_mode
                &&& is_fresh(post.object_list, "Objects"@)
                &&& post.object_continuation_token is None
                &&& post.load_generation == spec_next_generation(pre.load_generation)
                &&& post.current_bucket == pre.current_bucket
                &&& post.current_object == pre.current_object
                &&& post.current_object_content_type == pre.current_object_content_type
                &&& post.preview_object == pre.preview_object
                &&& post.object_preview == pre.object_preview
                &&& post.processed_preview_lines == pre.processed_preview_lines
                &&& post.processed_preview_width == pre.processed_preview_width
                &&& post.preview_scroll_offset == pre.preview_scroll_offset
                &&& post.search_bar == pre.search_bar
                &&& post.notification == pre.notification
                &&& post.loading_state == pre.loading_state
                &&& r == Option::Some(Effect::LoadObjects)
            },
            AppActions::LoadMore => post == pre && post_mode == pre_mode && r == (if
                pre.object_continuation_token is Some {
                Option::Some(Effect::LoadObjects)
            } else {
                Option::<Effect>::None
            }),
            AppActions::ClearSearch => {
                &&& post_mode == pre_mode
                &&& same_but_list_and_search(pre, post)
                &&& post.search_bar.active == pre.search_bar.active
                &&& post.search_bar.query@ == Seq::<char>::empty()
                &&& post.search_bar.cursor_position == 0
                &&& filter_refreshed(
                    pre.object_list,
                    post.object_list,
                    Seq::<char>::empty(),
                    object_key_fn(),
                )
                &&& r is None
            },
            _ => post == pre && post_mode == pre_mode && r is None,
        }
    }
}

/// What one action does while the preview pane is open: scroll by single
/// lines, half pages or pages — saturating at 0 and, while the line cache
/// is present, clamped to the last cached line — jump to the top or the
/// bottom line, close the pane, download the object, or fetch its content
/// again.
pub open spec fn preview_action_spec(
    pre: S3ObjectState,
    action: AppActions,
    post: S3ObjectState,
    r: Option<Effect>,
) -> bool {
    match action {
        AppActions::GoBack => post == (S3ObjectState { preview_object: false, ..pre })
            && post.preview_object == false && r is None,
        AppActions::MoveDown => scrolled_down(pre, post, 1) && r is None,
        AppActions::MoveUp => scrolled_to(
            pre,
            post,
            pre.preview_scroll_offset.saturating_sub(1) as int,
        ) && r is None,
        AppActions::MoveToTop => scrolled_to(pre, post, 0) && r is None,
        AppActions::MoveToBottom => r is None && scrolled_to(
            pre,
            post,
            (match pre.processed_preview_lines {
                Option::Some(lines) => if lines@.len() >= 1 {
                    lines@.len() - 1
                } else {
                    0
                },
                Option::None => pre.preview_scroll_offset as int,
            }),
        ),
        AppActions::PageDown => scrolled_down(pre, post, 10) && r is None,
        AppActions::PageUp => scrolled_to(
            pre,
            post,
            pre.preview_scroll_offset.saturating_sub(10) as int,
        ) && r is None,
        AppActions::HalfPageDown => scrolled_down(pre, post, 5) && r is None,
        AppActions::HalfPageUp => scrolled_to(
            pre,
            post,
            pre.preview_scroll_offset.saturating_sub(5) as int,
        ) && r is None,
        AppActions::Download => post == pre && r == (match pre.current_object {
            Option::Some(k) => Option::Some(Effect::DownloadObject { key: k }),
            Option::None => Option::<Effect>::None,
        }),
        AppActions::Refresh => post == pre && r == (match pre.current_object {
            Option::Some(k) => Option::Some(Effect::FetchObject { key: k }),
            Option::None => Option::<Effect>::None,
        }),
        _ => post == pre && r is None,
    }
}

/// The two states agree on everything except the loading state.
pub open spec fn same_but_loading_state(pre: S3ObjectState, post: S3ObjectState) -> bool {
    &&& post.current_bucket == pre.current_bucket
    &&& post.object_list == pre.object_list
    &&& post.current_object == pre.current_object
    &&& post.object_continuation_token == pre.object_continuation_token
    &&& post.current_object_content_type == pre.current_object_content_type
    &&& post.preview_object == pre.preview_object
    &&& post.object_preview == pre.object_preview
    &&& post.processed_preview_lines == pre.processed_preview_lines
    &&& post.processed_preview_width == pre.processed_preview_width
    &&& post.preview_scroll_offset == pre.preview_scroll_offset
    &&& post.search_bar == pre.search_bar
    &&& post.notification == pre.notification
    &&& post.load_generation == pre.load_generation
}

/// The two states agree on everything except the notification.
pub open spec fn same_but_notification(pre: S3ObjectState, post: S3ObjectState) -> bool {
    &&& post.current_bucket == pre.current_bucket
    &&& post.object_list == pre.object_list
    &&& post.current_object == pre.current_object
    &&& post.object_continuation_token == pre.object_continuation_token
    &&& post.current_object_content_type == pre.current_object_content_type
    &&& post.preview_object == pre.preview_object
    &&& post.object_preview == pre.object_preview
    &&& post.processed_preview_lines == pre.processed_preview_lines
    &&& post.processed_preview_width == pre.processed_preview_width
    &&& post.preview_scroll_offset == pre.preview_scroll_offset
    &&& post.search_bar == pre.search_bar
    &&& post.loading_state == pre.loading_state
    &&& post.load_generation == pre.load_generation
}

} // verus!
