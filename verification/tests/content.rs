use futures::FutureExt;
use hyper::body::{Body, Bytes, HttpBody};
use myxine::channel::{keep, reached};
use myxine::content::{refresh_text, set_event, set_text, Content, RefreshMode};
use tokio::sync::broadcast;

/// The next message on a stream, `None` if there is none yet or no more to come.
fn next(stream: &mut Body) -> Option<String> {
    match stream.data().now_or_never() {
        Some(Some(chunk)) => Some(String::from_utf8(chunk.unwrap().to_vec()).unwrap()),
        _ => None,
    }
}

/// Whether a stream has ended.
fn ended(stream: &mut Body) -> bool {
    matches!(stream.data().now_or_never(), Some(None))
}

fn dynamic(title: &str, body: &str) -> Content {
    let mut content = Content::new();
    content.set(title.to_string(), body.to_string(), RefreshMode::Diff);
    content
}

fn parts(content: &Content) -> (String, String) {
    match content {
        Content::Dynamic { title, body, .. } => (title.clone(), body.clone()),
        Content::Static { .. } => panic!("a static page has no title and no body"),
    }
}

const SET_T_B: &str = "event: set\ndata: {\"body\":\"B\",\"diff\":true,\"title\":\"T\"}\n\n";

#[test]
fn new_content_is_empty() {
    let mut content = Content::new();
    assert!(content.is_empty());
    assert!(content.is_empty_with(0));
    assert!(!content.is_empty_with(1));
    assert_eq!(parts(&content), (String::new(), String::new()));
    assert_eq!(content.content_type(), None);
}

#[test]
fn content_with_a_viewer_is_not_empty() {
    let mut content = Content::new();
    let stream = content.update_stream();
    assert!(stream.is_some());
    assert!(!content.is_empty());
    drop(stream);
    assert!(content.is_empty());
}

#[test]
fn content_with_a_title_or_a_body_is_not_empty() {
    assert!(!dynamic("T", "").is_empty());
    assert!(!dynamic("", "B").is_empty());
    assert!(!dynamic("T", "").is_empty_with(0));
    let mut content = Content::new();
    content.set_static(None, Vec::new());
    assert!(!content.is_empty());
    assert!(!content.is_empty_with(0));
}

#[test]
fn set_reports_changes() {
    let mut content = Content::new();
    assert!(!content.set(String::new(), String::new(), RefreshMode::Diff));
    assert!(content.set("T".to_string(), String::new(), RefreshMode::Diff));
    assert!(content.set("T".to_string(), "B".to_string(), RefreshMode::Diff));
    assert!(!content.set("T".to_string(), "B".to_string(), RefreshMode::SetBody));
    assert!(content.set("U".to_string(), "B".to_string(), RefreshMode::FullReload));
    assert_eq!(parts(&content), ("U".to_string(), "B".to_string()));
}

#[test]
fn set_converts_from_static() {
    let mut content = Content::new();
    content.set_static(Some("text/plain".to_string()), b"raw".to_vec());
    assert!(content.set(String::new(), String::new(), RefreshMode::Diff));
    assert_eq!(parts(&content), (String::new(), String::new()));
    assert_eq!(content.content_type(), None);
}

#[test]
fn set_tells_the_clients_once_if_it_changes_something() {
    let mut content = Content::new();
    let mut stream = content.update_stream().unwrap();
    assert!(next(&mut stream).is_some());
    content.set("T".to_string(), "B".to_string(), RefreshMode::Diff);
    assert_eq!(next(&mut stream).unwrap(), SET_T_B);
    content.set("T".to_string(), "B".to_string(), RefreshMode::Diff);
    assert_eq!(next(&mut stream), None);
    content.set("T".to_string(), "C".to_string(), RefreshMode::SetBody);
    assert_eq!(
        next(&mut stream).unwrap(),
        "event: set\ndata: {\"body\":\"C\",\"diff\":false,\"title\":\"T\"}\n\n"
    );
    content.set("U".to_string(), "C".to_string(), RefreshMode::FullReload);
    assert_eq!(next(&mut stream).unwrap(), "event: refresh\ndata: .\n\n");
}

#[test]
fn set_title_keeps_the_body_and_set_body_the_title() {
    let mut content = dynamic("T", "B");
    assert!(content.set_title("U".to_string(), RefreshMode::Diff));
    assert_eq!(parts(&content), ("U".to_string(), "B".to_string()));
    assert!(content.set_body("C".to_string(), RefreshMode::Diff));
    assert_eq!(parts(&content), ("U".to_string(), "C".to_string()));
    assert!(!content.set_body("C".to_string(), RefreshMode::Diff));
    content.set_static(None, Vec::new());
    assert!(content.set_body("D".to_string(), RefreshMode::Diff));
    assert_eq!(parts(&content), (String::new(), "D".to_string()));
}

#[test]
fn a_new_client_gets_the_current_contents_first() {
    let mut content = dynamic("T", "B");
    let mut stream = content.update_stream().unwrap();
    assert_eq!(next(&mut stream).unwrap(), SET_T_B);
    assert_eq!(next(&mut stream), None);
}

#[test]
fn a_client_that_lags_behind_gets_the_newest_update() {
    let mut content = Content::new();
    let mut stream = content.update_stream().unwrap();
    content.set("one".to_string(), "B".to_string(), RefreshMode::Diff);
    content.set("two".to_string(), "B".to_string(), RefreshMode::Diff);
    content.set("T".to_string(), "B".to_string(), RefreshMode::Diff);
    assert_eq!(next(&mut stream).unwrap(), SET_T_B);
    assert_eq!(next(&mut stream), None);
    assert!(!ended(&mut stream));
}

#[test]
fn lag_is_left_out_of_a_stream() {
    assert!(keep(&Ok(Bytes::from("update"))));
    assert!(keep(&Err(broadcast::RecvError::Closed)));
    assert!(!keep(&Err(broadcast::RecvError::Lagged(3))));
}

#[test]
fn a_failed_send_reaches_nobody() {
    assert_eq!(reached(Ok(3)), 3);
    assert_eq!(reached(Err(broadcast::SendError(Bytes::from("update")))), 0);
}

#[test]
fn heartbeat_counts_the_clients() {
    let mut content = Content::new();
    assert_eq!(content.send_heartbeat(), Some(0));
    let mut first = content.update_stream().unwrap();
    let second = content.update_stream().unwrap();
    assert!(next(&mut first).is_some());
    assert_eq!(content.send_heartbeat(), Some(2));
    assert_eq!(next(&mut first).unwrap(), ":\n\n");
    drop(second);
    assert_eq!(content.send_heartbeat(), Some(1));
}

#[test]
fn static_content_is_silent() {
    let mut content = Content::new();
    content.set_static(Some("text/plain".to_string()), b"raw".to_vec());
    assert!(content.update_stream().is_none());
    assert_eq!(content.send_heartbeat(), None);
    content.refresh(RefreshMode::Diff);
    content.set_subscriptions("[]");
    assert_eq!(content.content_type(), Some("text/plain".to_string()));
}

#[test]
fn set_static_reloads_the_clients_and_ends_their_streams() {
    let mut content = dynamic("T", "B");
    let mut stream = content.update_stream().unwrap();
    assert!(next(&mut stream).is_some());
    let former = content.set_static(None, b"raw".to_vec());
    assert_eq!(next(&mut stream).unwrap(), "event: refresh\ndata: .\n\n");
    assert!(!ended(&mut stream));
    assert_eq!(parts(&former), ("T".to_string(), "B".to_string()));
    drop(former);
    assert!(ended(&mut stream));
    assert_eq!(content.content_type(), None);
}

#[test]
fn refresh_repeats_the_contents() {
    let mut content = dynamic("T", "B");
    let mut stream = content.update_stream().unwrap();
    assert!(next(&mut stream).is_some());
    content.refresh(RefreshMode::Diff);
    assert_eq!(next(&mut stream).unwrap(), SET_T_B);
    content.refresh(RefreshMode::FullReload);
    assert_eq!(next(&mut stream).unwrap(), "event: refresh\ndata: .\n\n");
}

#[test]
fn subscriptions_are_told() {
    let mut content = Content::new();
    let mut stream = content.update_stream().unwrap();
    assert!(next(&mut stream).is_some());
    content.set_subscriptions("[\"click\"]");
    assert_eq!(next(&mut stream).unwrap(), "event: subscribe\ndata: [\"click\"]\n\n");
}

#[test]
fn contents_are_told_on_one_line() {
    assert_eq!(
        set_text("a\"b", "line\nline\r\u{1}\\", false),
        "{\"body\":\"line\\nline\\r\\u0001\\\\\",\"diff\":false,\"title\":\"a\\\"b\"}"
    );
    assert_eq!(set_text("", "", true), "{\"body\":\"\",\"diff\":true,\"title\":\"\"}");
    assert_ne!(set_text("a", "b", true), set_text("b", "a", true));
    assert_ne!(set_text("a", "b", true), set_text("a", "b", false));
}

#[test]
fn data_is_split_into_lines() {
    assert_eq!(set_event("one"), "event: set\ndata: one\n\n");
    assert_eq!(set_event("one\ntwo\r\nthree"), "event: set\ndata: one\ndata: two\ndata: three\n\n");
    assert_eq!(set_event("one\n"), "event: set\ndata: one\n\n");
    assert_eq!(set_event("one\n\ntwo"), "event: set\ndata: one\ndata: \ndata: two\n\n");
    assert_eq!(set_event("one\r"), "event: set\ndata: one\r\n\n");
    assert_eq!(set_event("\n"), "event: set\ndata: \n\n");
    assert_eq!(set_event(""), "event: set\n\n");
}

#[test]
fn refresh_text_follows_the_mode() {
    assert_eq!(refresh_text("T", "B", RefreshMode::Diff), SET_T_B);
    assert_eq!(refresh_text("T", "B", RefreshMode::FullReload), "event: refresh\ndata: .\n\n");
    assert_eq!(
        refresh_text("T", "B", RefreshMode::SetBody),
        "event: set\ndata: {\"body\":\"B\",\"diff\":false,\"title\":\"T\"}\n\n"
    );
}
