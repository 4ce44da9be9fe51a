//! Shared state types: the browsing modes, the per-view loading state
//! machine, transient status messages, and the effects the dispatcher asks
//! its caller to perform.

use vstd::prelude::*;

use crate::state::s3_bucket::S3BucketState;
use crate::state::s3_object::S3ObjectState;

pub mod s3_bucket;
pub mod s3_object;

verus! {

/// The browsing modes: picking a bucket, or browsing the objects inside
/// one.
#[derive(Clone, Copy, Debug, PartialEq, Eq, Structural)]
pub enum AppMode {
    BucketList,
    ObjectList,
}

/// Where a view's page loader stands: nothing requested yet, a fetch in
/// flight, the last fetch applied, or the last fetch failed.
#[derive(Clone, Copy, Debug, PartialEq, Eq, Structural)]
pub enum LoadingState {
    Idle,
    Loading,
    Loaded,
    Error,
}

/// A transient status line and the moment it was posted, in milliseconds of
/// the caller's clock.
pub struct NotificationMessage {
    pub status_message: String,
    pub status_message_time_ms: u64,
}

/// How long a transient status line stays on screen, in milliseconds.
pub const STATUS_MESSAGE_TTL_MS: u64 = 3000;

/// What the caller must perform next on behalf of the core: fetch a page of
/// buckets or objects, fetch one object's content for the preview, or
/// download one object.
pub enum Effect {
    LoadBuckets,
    LoadObjects,
    FetchObject { key: String },
    DownloadObject { key: String },
}

/// A bucket-list page request handed to the fetch collaborator.  The
/// continuation token must be round-tripped unmodified; the generation
/// stamp comes back with the result so a completion for a discarded
/// context is recognized and ignored.
pub struct PageRequest {
    pub generation: u64,
    pub continuation_token: Option<String>,
}

/// An object-list page request handed to the fetch collaborator: the bucket
/// to list, the continuation token to round-trip, the server-side key
/// filter, and the generation stamp.
pub struct ObjectPageRequest {
    pub generation: u64,
    pub bucket: String,
    pub continuation_token: Option<String>,
    pub filter: Option<String>,
}

/// The generation stamp after a context switch; wraps at the top of the
/// range.
pub open spec fn spec_next_generation(g: u64) -> u64 {
    if g == u64::MAX {
        0
    } else {
        (g + 1) as u64
    }
}

/// Advances the generation stamp.
pub fn next_generation(g: u64) -> (r: u64)
    ensures
        r == spec_next_generation(g),
{
    if g == u64::MAX {
        0
    } else {
        g + 1
    }
}

/// The complete state of the application: the mode, the two browsing
/// views, the transient status line, and the exit flag.
pub struct AppState {
    pub mode: AppMode,
    pub s3_bucket: S3BucketState,
    pub s3_object: S3ObjectState,
    pub status_message: Option<String>,
    pub status_message_time_ms: Option<u64>,
    pub exit: bool,
}

impl AppState {
    /// Both views are well-formed.
    pub open spec fn wf(&self) -> bool {
        &&& self.s3_bucket.wf()
        &&& self.s3_object.wf()
    }

    /// A fresh application: bucket mode, fresh views, no status, not
    /// exiting.
    pub fn new() -> (r: Self)
        ensures
            r.wf(),
            r.mode is BucketList,
            r.status_message is None,
            r.status_message_time_ms is None,
            r.exit == false,
            crate::list::is_fresh(r.s3_bucket.bucket_list, "S3 Buckets"@),
            r.s3_bucket.bucket_continuation_token is None,
            r.s3_bucket.current_bucket is None,
            r.s3_bucket.search_bar.query@ == Seq::<char>::empty(),
            !r.s3_bucket.search_bar.active,
            r.s3_bucket.loading_state is Idle,
            crate::list::is_fresh(r.s3_object.object_list, "Bucket Contents"@),
            r.s3_object.current_object is None,
            r.s3_object.object_continuation_token is None,
            r.s3_object.preview_object == false,
            r.s3_object.search_bar.query@ == Seq::<char>::empty(),
            !r.s3_object.search_bar.active,
            r.s3_object.loading_state is Idle,
            r.s3_object.object_preview is None,
            r.s3_object.processed_preview_lines is None,
            r.s3_object.preview_scroll_offset == 0,
            r.s3_object.notification is None,
            r.s3_bucket.load_generation == 0,
            r.s3_object.load_generation == 0,
    {
        AppState {
            mode: AppMode::BucketList,
            s3_bucket: S3BucketState::new(),
            s3_object: S3ObjectState::new(),
            status_message: Option::None,
            status_message_time_ms: Option::None,
            exit: false,
        }
    }

    /// Drops the transient status line once it has outlived its display
    /// time, and lets the object view drop its stale notification the same
    /// way.
    pub fn tick(&mut self, now_ms: u64)
        requires
            old(self).wf(),
        ensures
            final(self).wf(),
            final(self).status_message == (match old(self).status_message_time_ms {
                Option::Some(t) => if now_ms >= t && now_ms - t > STATUS_MESSAGE_TTL_MS {
                    Option::<String>::None
                } else {
                    old(self).status_message
                },
                Option::None => old(self).status_message,
            }),
            final(self).status_message_time_ms == (match old(self).status_message_time_ms {
                Option::Some(t) => if now_ms >= t && now_ms - t > STATUS_MESSAGE_TTL_MS {
                    Option::<u64>::None
                } else {
                    old(self).status_message_time_ms
                },
                Option::None => old(self).status_message_time_ms,
            }),
            final(self).mode == old(self).mode,
            final(self).s3_bucket == old(self).s3_bucket,
            final(self).exit == old(self).exit,
            s3_object::same_but_notification(old(self).s3_object, final(self).s3_object),
            final(self).s3_object.notification == (match old(self).s3_object.notification {
                Option::Some(n) => if now_ms >= n.status_message_time_ms && now_ms
                    - n.status_message_time_ms > STATUS_MESSAGE_TTL_MS {
                    Option::<NotificationMessage>::None
                } else {
                    old(self).s3_object.notification
                },
                Option::None => Option::<NotificationMessage>::None,
            }),
    {
        let mut stale = false;
        match &self.status_message_time_ms {
            Option::Some(t) => {
                if now_ms >= *t && now_ms - *t > STATUS_MESSAGE_TTL_MS {
                    stale = true;
                }
            },
            Option::None => {},
        }
        if stale {
            self.status_message = Option::None;
            self.status_message_time_ms = Option::None;
        }
        self.s3_object.clear_stale_notification(now_ms);
    }
}

} // verus!
