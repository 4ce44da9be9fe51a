//! The action dispatcher: routes one decoded action to the view that is in
//! front, given the current mode and whether the preview pane is open.
//! Polling the terminal and decoding raw key events stay with the caller.

use vstd::prelude::*;

use crate::actions::AppActions;
use crate::search::bar_toggled;
use crate::state::s3_bucket::{bucket_action_spec, same_but_list_and_search as bucket_frame};
use crate::state::s3_object::{
    object_action_spec, preview_action_spec, same_but_list_and_search as object_frame,
};
use crate::state::{AppMode, AppState, Effect};

verus! {

/// What one key-decoded action does to the whole application state: Exit
/// raises the exit flag; starting a search toggles the bar of the view the
/// mode names; everything else goes to the bucket handler, the preview
/// handler or the object handler, by mode and preview flag.
pub open spec fn key_event_spec(
    pre: AppState,
    action: AppActions,
    post: AppState,
    r: Option<Effect>,
) -> bool {
    match action {
        AppActions::Exit => {
            &&& post.exit == true
            &&& post.mode == pre.mode
            &&& post.s3_bucket == pre.s3_bucket
            &&& post.s3_object == pre.s3_object
            &&& post.status_message == pre.status_message
            &&& post.status_message_time_ms == pre.status_message_time_ms
            &&& r is None
        },
        AppActions::StartSearch => {
            &&& pre.mode is BucketList ==> bar_toggled(
                pre.s3_bucket.search_bar,
                post.s3_bucket.search_bar,
            ) && bucket_frame(pre.s3_bucket, post.s3_bucket) && post.s3_bucket.bucket_list
                == pre.s3_bucket.bucket_list && post.s3_object == pre.s3_object
            &&& pre.mode is ObjectList ==> bar_toggled(
                pre.s3_object.search_bar,
                post.s3_object.search_bar,
            ) && object_frame(pre.s3_object, post.s3_object) && post.s3_object.object_list
                == pre.s3_object.object_list && post.s3_bucket == pre.s3_bucket
            &&& post.mode == pre.mode
            &&& post.status_message == pre.status_message
            &&& post.status_message_time_ms == pre.status_message_time_ms
            &&& post.exit == pre.exit
            &&& r is None
        },
        _ => {
            &&& post.status_message == pre.status_message
            &&& post.status_message_time_ms == pre.status_message_time_ms
            &&& post.exit == pre.exit
            &&& pre.mode is BucketList ==> bucket_action_spec(
                pre.s3_bucket,
                pre.s3_object,
                pre.mode,
                action,
                post.s3_bucket,
                post.s3_object,
                post.mode,
                r,
            )
            &&& pre.mode is ObjectList && pre.s3_object.preview_object ==> preview_action_spec(
                pre.s3_object,
                action,
                post.s3_object,
                r,
            ) && post.s3_bucket == pre.s3_bucket && post.mode == pre.mode
            &&& pre.mode is ObjectList && !pre.s3_object.preview_object ==> object_action_spec(
                pre.s3_object,
                pre.mode,
                action,
                post.s3_object,
                post.mode,
                r,
            ) && post.s3_bucket == pre.s3_bucket
        },
    }
}

/// Routes decoded actions into the application state.
pub struct EventHandler;

impl EventHandler {
    /// A dispatcher carries no state of its own.
    pub fn new() -> (r: Self) {
        EventHandler
    }

    /// Applies one decoded action to the application state and hands back
    /// the effect, if any, that the caller must perform.
    pub fn handle_key_event(&self, action: AppActions, state: &mut AppState) -> (r: Option<
        Effect,
    >)
        requires
            old(state).wf(),
            action is SearchInput ==> old(state).s3_bucket.search_bar.query@.len() < usize::MAX
                && old(state).s3_object.search_bar.query@.len() < usize::MAX,
        ensures
            final(state).wf(),
            key_event_spec(*old(state), action, *final(state), r),
    {
        match action {
            AppActions::Exit => {
                state.exit = true;
                Option::None
            },
            AppActions::StartSearch => {
                match state.mode {
                    AppMode::BucketList => state.s3_bucket.search_bar.toggle(),
                    AppMode::ObjectList => state.s3_object.search_bar.toggle(),
                }
                Option::None
            },
            _ => {
                match state.mode {
                    AppMode::BucketList => {
                        let mut mode = state.mode;
                        let r = state.s3_bucket.handle_bucket_action(
                            action,
                            &mut mode,
                            &mut state.s3_object,
                        );
                        state.mode = mode;
                        r
                    },
                    AppMode::ObjectList => {
                        if state.s3_object.preview_object {
                            state.s3_object.handle_preview_action(action)
                        } else {
                            let mut mode = state.mode;
                            let r = state.s3_object.handle_object_action(action, &mut mode);
                            state.mode = mode;
                            r
                        }
                    },
                }
            },
        }
    }
}

} // verus!
