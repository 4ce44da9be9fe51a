use s3_browser::actions::AppActions;
use s3_browser::preview::{format_preview_text, wrap_preview_lines};
use s3_browser::state::s3_object::S3ObjectState;

const SENTINEL: &str = "[Binary content - not valid UTF-8]";

#[test]
fn test_json_payload_is_pretty_printed() {
    let mut st = S3ObjectState::new();
    st.object_preview = Some(String::from("{\"a\":1}"));
    st.current_object_content_type = Some(String::from("application/json"));
    st.prepare_display_lines_for_preview(80);
    let lines = st.processed_preview_lines.as_ref().unwrap();
    assert_eq!(lines, &vec!["{", "  \"a\": 1", "}"]);
}

#[test]
fn test_invalid_json_gets_a_banner() {
    let mut st = S3ObjectState::new();
    st.object_preview = Some(String::from("not json"));
    st.current_object_content_type = Some(String::from("application/json"));
    st.prepare_display_lines_for_preview(80);
    let lines = st.processed_preview_lines.as_ref().unwrap();
    assert_eq!(
        lines,
        &vec![
            "[Content-Type: application/json, but failed to parse as JSON]",
            "",
            "not json"
        ]
    );
}

#[test]
fn test_width_zero_yields_one_line_with_the_whole_text() {
    let mut st = S3ObjectState::new();
    let long = "a text that would certainly wrap at any reasonable width ".repeat(4);
    st.object_preview = Some(long.clone());
    st.current_object_content_type = Some(String::from("text/plain"));
    st.prepare_display_lines_for_preview(0);
    let lines = st.processed_preview_lines.as_ref().unwrap();
    assert_eq!(lines.len(), 1);
    assert_eq!(lines[0], long);
}

#[test]
fn test_line_cache_follows_the_render_width() {
    let mut st = S3ObjectState::new();
    st.object_preview = Some(String::from("one two three four"));
    st.current_object_content_type = Some(String::from("text/plain"));

    st.ensure_preview_lines(80);
    assert_eq!(st.processed_preview_lines.as_ref().unwrap().len(), 1);
    let before = st.processed_preview_lines.clone();

    // the same width keeps the cache; another width rebuilds it
    st.ensure_preview_lines(80);
    assert_eq!(st.processed_preview_lines, before);
    st.ensure_preview_lines(9);
    assert_eq!(
        st.processed_preview_lines.as_ref().unwrap(),
        &vec!["one two", "three", "four"]
    );

    // a rebuild with fewer lines pulls the scroll offset back in range
    st.handle_preview_action(AppActions::MoveToBottom);
    assert_eq!(st.preview_scroll_offset, 2);
    st.ensure_preview_lines(80);
    assert_eq!(st.processed_preview_lines.as_ref().unwrap().len(), 1);
    assert_eq!(st.preview_scroll_offset, 0);
}

#[test]
fn test_image_becomes_a_placeholder() {
    let text = format_preview_text(
        &String::from("raw bytes"),
        &Some(String::from("image/png")),
    );
    assert_eq!(text, "[Image: image/png]");
}

#[test]
fn test_octet_stream_becomes_binary_placeholder() {
    let text = format_preview_text(
        &String::from("raw"),
        &Some(String::from("application/octet-stream")),
    );
    assert_eq!(text, "[Binary Data: application/octet-stream]");
}

#[test]
fn test_sentinel_passes_through() {
    let text = format_preview_text(
        &String::from(SENTINEL),
        &Some(String::from("application/json")),
    );
    assert_eq!(text, SENTINEL);
}

#[test]
fn test_other_content_type_gets_a_banner() {
    let text = format_preview_text(
        &String::from("%PDF-1.4"),
        &Some(String::from("application/pdf")),
    );
    assert_eq!(
        text,
        "[Preview for Content-Type: application/pdf]\n\n%PDF-1.4"
    );
}

#[test]
fn test_text_and_untyped_payloads_pass_through() {
    let text = format_preview_text(&String::from("hello"), &Some(String::from("text/plain")));
    assert_eq!(text, "hello");
    let text = format_preview_text(&String::from("hello"), &None);
    assert_eq!(text, "hello");
}

#[test]
fn test_wrapping_splits_long_text() {
    let lines = wrap_preview_lines(&String::from("one two three four"), 9);
    assert_eq!(lines, vec!["one two", "three", "four"]);
}

#[test]
fn test_scroll_stays_inside_the_line_cache() {
    let mut st = S3ObjectState::new();
    st.object_preview = Some(String::from("l1\nl2\nl3\nl4\nl5"));
    st.current_object_content_type = Some(String::from("text/plain"));
    st.prepare_display_lines_for_preview(80);
    assert_eq!(st.processed_preview_lines.as_ref().unwrap().len(), 5);

    // paging far past the end stops on the last line, and so does one
    // more step down
    st.handle_preview_action(AppActions::PageDown);
    assert_eq!(st.preview_scroll_offset, 4);
    st.handle_preview_action(AppActions::MoveDown);
    assert_eq!(st.preview_scroll_offset, 4);

    // a pane 2 lines tall starting at the last line is pulled back so it
    // stays full
    assert_eq!(st.preview_window(2), (3, 5));
    st.preview_scroll_offset = 1;
    assert_eq!(st.preview_window(2), (1, 3));
    // a pane taller than the cache shows everything
    assert_eq!(st.preview_window(10), (0, 5));
}
