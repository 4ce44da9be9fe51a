use s3_browser::actions::AppActions;
use s3_browser::events::EventHandler;
use s3_browser::state::s3_bucket::{BucketItem, S3BucketState};
use s3_browser::state::s3_object::{ObjectItem, S3ObjectState};
use s3_browser::state::{AppMode, AppState, Effect, LoadingState};

fn objects(keys: &[&str]) -> Vec<ObjectItem> {
    keys.iter()
        .map(|k| ObjectItem { key: Some(k.to_string()), size: Some(1) })
        .collect()
}

#[test]
fn test_load_objects_applies_a_page() {
    let mut st = S3ObjectState::new();
    let req = st.begin_load_objects().expect("no fetch in flight yet");
    assert!(matches!(st.loading_state, LoadingState::Loading));
    assert_eq!(req.continuation_token, None);
    assert_eq!(req.filter, None);

    st.finish_load_objects(req.generation, objects(&["a", "b"]), Some(String::from("tok")));
    assert!(matches!(st.loading_state, LoadingState::Loaded));
    assert_eq!(st.object_list.items.len(), 2);
    assert_eq!(st.object_list.filtered_indices, vec![0, 1]);
    assert_eq!(st.object_list.selected, Some(0));
    assert!(st.object_list.has_more);
    assert_eq!(st.object_continuation_token, Some(String::from("tok")));

    // the next page is requested with the stored token
    let req2 = st.begin_load_objects().expect("loaded, so a new fetch may start");
    assert_eq!(req2.continuation_token, Some(String::from("tok")));
    st.finish_load_objects(req2.generation, objects(&["c"]), None);
    assert_eq!(st.object_list.items.len(), 3);
    assert!(!st.object_list.has_more);
    assert_eq!(st.object_continuation_token, None);
}

#[test]
fn test_second_fetch_is_refused_while_loading() {
    let mut st = S3ObjectState::new();
    let _req = st.begin_load_objects().expect("no fetch in flight yet");
    assert!(st.begin_load_objects().is_none());
}

#[test]
fn test_stale_completion_is_discarded() {
    let mut st = S3ObjectState::new();
    let req = st.begin_load_objects().expect("no fetch in flight yet");

    // the user leaves the context before the fetch completes
    let mut mode = AppMode::ObjectList;
    let r = st.handle_object_action(AppActions::GoBack, &mut mode);
    assert!(r.is_none());
    assert!(matches!(mode, AppMode::BucketList));

    st.finish_load_objects(req.generation, objects(&["late"]), None);
    assert_eq!(st.object_list.items.len(), 0, "a stale page must not land");
}

#[test]
fn test_failed_fetch_reports_an_error() {
    let mut st = S3ObjectState::new();
    let req = st.begin_load_objects().expect("no fetch in flight yet");
    st.fail_load_objects(req.generation);
    assert!(matches!(st.loading_state, LoadingState::Error));
}

#[test]
fn test_load_buckets_applies_a_page() {
    let mut st = S3BucketState::new();
    let req = st.begin_load_buckets().expect("no fetch in flight yet");
    st.finish_load_buckets(
        req.generation,
        vec![
            BucketItem { name: Some(String::from("logs")) },
            BucketItem { name: Some(String::from("media")) },
        ],
        None,
    );
    assert!(matches!(st.loading_state, LoadingState::Loaded));
    assert_eq!(st.bucket_list.filtered_indices, vec![0, 1]);
    assert_eq!(st.bucket_list.selected, Some(0));
    assert!(!st.bucket_list.has_more);
}

#[test]
fn test_entering_a_bucket_builds_a_fresh_object_view() {
    let mut buckets = S3BucketState::new();
    let req = buckets.begin_load_buckets().expect("no fetch in flight yet");
    buckets.finish_load_buckets(
        req.generation,
        vec![BucketItem { name: Some(String::from("media")) }],
        None,
    );

    let mut obj = S3ObjectState::new();
    obj.search_bar.toggle();
    obj.search_bar.input('x');
    let mut mode = AppMode::BucketList;
    let r = buckets.handle_bucket_action(AppActions::Enter, &mut mode, &mut obj);
    assert!(matches!(r, Some(Effect::LoadObjects)));
    assert!(matches!(mode, AppMode::ObjectList));
    assert_eq!(buckets.current_bucket, Some(String::from("media")));
    assert_eq!(obj.current_bucket, "media");
    assert_eq!(obj.object_list.title, "Contents of media");
    assert_eq!(obj.object_list.items.len(), 0);
    assert_eq!(obj.object_continuation_token, None);
    // no search state leaks into the new context
    assert!(!obj.search_bar.active);
    assert_eq!(obj.search_bar.query, "");
}

#[test]
fn test_search_editing_refilters_the_object_list() {
    let mut st = S3ObjectState::new();
    let req = st.begin_load_objects().expect("no fetch in flight yet");
    st.finish_load_objects(req.generation, objects(&["notes.txt", "img.png"]), None);

    let mut mode = AppMode::ObjectList;
    st.handle_object_action(AppActions::StartSearch, &mut mode);
    assert!(st.search_bar.active);
    st.handle_object_action(AppActions::SearchInput('p'), &mut mode);
    st.handle_object_action(AppActions::SearchInput('n'), &mut mode);
    st.handle_object_action(AppActions::SearchInput('g'), &mut mode);
    assert_eq!(st.object_list.filtered_indices, vec![1]);
    assert_eq!(st.object_list.selected, Some(1));

    // Escape cancels: the query is gone and everything is visible again
    st.handle_object_action(AppActions::GoBack, &mut mode);
    assert!(!st.search_bar.active);
    assert_eq!(st.search_bar.query, "");
    assert_eq!(st.object_list.filtered_indices, vec![0, 1]);
    assert!(matches!(mode, AppMode::ObjectList));
}

#[test]
fn test_enter_previews_the_selected_object() {
    let mut st = S3ObjectState::new();
    let req = st.begin_load_objects().expect("no fetch in flight yet");
    st.finish_load_objects(req.generation, objects(&["a.txt", "b.txt"]), None);

    let mut mode = AppMode::ObjectList;
    st.handle_object_action(AppActions::MoveDown, &mut mode);
    let r = st.handle_object_action(AppActions::Enter, &mut mode);
    match r {
        Some(Effect::FetchObject { key }) => assert_eq!(key, "b.txt"),
        _ => panic!("expected a content fetch for the selected object"),
    }

    let generation = st.begin_preview_load();
    st.finish_preview_load(
        generation,
        String::from("b.txt"),
        String::from("hello"),
        Some(String::from("text/plain")),
    );
    assert!(st.preview_object);
    assert_eq!(st.current_object, Some(String::from("b.txt")));
    assert_eq!(st.object_preview, Some(String::from("hello")));
    assert_eq!(st.preview_scroll_offset, 0);
}

#[test]
fn test_preview_scrolling_saturates() {
    let mut st = S3ObjectState::new();
    st.preview_object = true;
    let r = st.handle_preview_action(AppActions::MoveUp);
    assert!(r.is_none());
    assert_eq!(st.preview_scroll_offset, 0);
    st.handle_preview_action(AppActions::PageDown);
    assert_eq!(st.preview_scroll_offset, 10);
    st.handle_preview_action(AppActions::HalfPageUp);
    assert_eq!(st.preview_scroll_offset, 5);
    st.handle_preview_action(AppActions::MoveToTop);
    assert_eq!(st.preview_scroll_offset, 0);
    let r = st.handle_preview_action(AppActions::GoBack);
    assert!(r.is_none());
    assert!(!st.preview_object);
}

#[test]
fn test_download_effect_names_the_current_object() {
    let mut st = S3ObjectState::new();
    st.preview_object = true;
    st.current_object = Some(String::from("folder/report.txt"));
    let r = st.handle_preview_action(AppActions::Download);
    match r {
        Some(Effect::DownloadObject { key }) => assert_eq!(key, "folder/report.txt"),
        _ => panic!("expected a download effect"),
    }
}

#[test]
fn test_load_more_only_with_a_token() {
    let mut st = S3ObjectState::new();
    let mut mode = AppMode::ObjectList;
    assert!(st.handle_object_action(AppActions::LoadMore, &mut mode).is_none());
    st.object_continuation_token = Some(String::from("tok"));
    assert!(matches!(
        st.handle_object_action(AppActions::LoadMore, &mut mode),
        Some(Effect::LoadObjects)
    ));
}

#[test]
fn test_status_message_expires_after_its_display_time() {
    let mut app = AppState::new();
    app.status_message = Some(String::from("Downloaded"));
    app.status_message_time_ms = Some(1_000);
    app.s3_object.update_status(String::from("working"), 1_000);

    app.tick(4_000);
    assert_eq!(app.status_message, Some(String::from("Downloaded")));
    assert!(app.s3_object.notification.is_some());

    app.tick(4_001);
    assert_eq!(app.status_message, None);
    assert_eq!(app.status_message_time_ms, None);
    assert!(app.s3_object.notification.is_none());
}

#[test]
fn test_key_events_route_by_mode() {
    let handler = EventHandler::new();
    let mut app = AppState::new();

    // StartSearch toggles the bar of the view the mode names
    handler.handle_key_event(AppActions::StartSearch, &mut app);
    assert!(app.s3_bucket.search_bar.active);
    assert!(!app.s3_object.search_bar.active);
    handler.handle_key_event(AppActions::GoBack, &mut app);
    assert!(!app.s3_bucket.search_bar.active);

    // Exit raises the flag and touches nothing else
    let r = handler.handle_key_event(AppActions::Exit, &mut app);
    assert!(r.is_none());
    assert!(app.exit);

    // in object mode with the preview open, actions go to the preview pane
    app.mode = AppMode::ObjectList;
    app.s3_object.preview_object = true;
    handler.handle_key_event(AppActions::MoveDown, &mut app);
    assert_eq!(app.s3_object.preview_scroll_offset, 1);
}

#[test]
fn test_refresh_starts_over() {
    let mut st = S3ObjectState::new();
    let req = st.begin_load_objects().expect("no fetch in flight yet");
    st.finish_load_objects(req.generation, objects(&["a"]), Some(String::from("tok")));

    let mut mode = AppMode::ObjectList;
    let r = st.handle_object_action(AppActions::Refresh, &mut mode);
    assert!(matches!(r, Some(Effect::LoadObjects)));
    assert_eq!(st.object_list.items.len(), 0);
    assert_eq!(st.object_list.title, "Objects");
    assert_eq!(st.object_continuation_token, None);
}
