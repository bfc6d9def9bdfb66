use futures::FutureExt;
use hyper::body::{Body, HttpBody};
use myxine::evaluate::{Duration, EvalError, Outcome, Wait};
use myxine::page::Page;
use myxine::template::{Part, Template};

fn next(stream: &mut Body) -> Option<String> {
    match stream.data().now_or_never() {
        Some(Some(chunk)) => Some(String::from_utf8(chunk.unwrap().to_vec()).unwrap()),
        _ => None,
    }
}

fn template() -> Template {
    Template {
        parts: vec![
            Part::Text("<title>".to_string()),
            Part::Title,
            Part::Text("</title><script>".to_string()),
            Part::Subscription,
            Part::Text("</script>".to_string()),
            Part::Body,
        ],
    }
}

/// A page, and a stream of its updates of which the first was read.
fn watched() -> (Page<u32>, Body) {
    let mut page = Page::new();
    let mut stream = page.update_stream().unwrap();
    assert_eq!(
        next(&mut stream).unwrap(),
        "event: set\ndata: {\"body\":\"\",\"diff\":true,\"title\":\"\"}\n\n"
    );
    (page, stream)
}

#[test]
fn a_new_page_is_empty() {
    let mut page = Page::<u32>::new();
    assert!(page.is_empty(true));
    assert!(!page.is_empty(false));
    assert!(page.is_empty_with(0, true));
    assert!(!page.is_empty_with(1, true));
    assert!(!page.is_empty_with(0, false));
}

#[test]
fn a_page_with_a_viewer_is_not_empty() {
    let (mut page, stream) = watched();
    assert!(!page.is_empty(true));
    drop(stream);
    assert!(page.is_empty(true));
}

#[test]
fn a_dynamic_page_is_rendered_from_the_template() {
    let mut page = Page::<u32>::new();
    page.set_title("T".to_string());
    page.set_body("B".to_string());
    assert_eq!(
        page.render(&template(), "[]", false),
        b"<title>T</title><script>[]</script>B".to_vec()
    );
}

#[test]
fn a_static_page_is_rendered_as_it_is() {
    let mut page = Page::<u32>::new();
    page.set_static(Some("image/png".to_string()), vec![0, 255, 10]);
    assert_eq!(page.render(&template(), "[]", true), vec![0, 255, 10]);
    assert_eq!(page.content_type(), Some("image/png".to_string()));
    page.set_title("T".to_string());
    assert_eq!(page.content_type(), None);
    assert_eq!(
        page.render(&template(), "[]", false),
        b"<title>T</title><script>[]</script>".to_vec()
    );
}

#[test]
fn set_static_reloads_the_clients() {
    let (mut page, mut stream) = watched();
    page.set_static(None, b"raw".to_vec());
    assert_eq!(next(&mut stream).unwrap(), "event: refresh\ndata: .\n\n");
    assert!(matches!(stream.data().now_or_never(), Some(None)));
    assert!(page.update_stream().is_none());
}

#[test]
fn title_and_body_are_told_if_they_change() {
    let (mut page, mut stream) = watched();
    page.set_title("T".to_string());
    assert_eq!(
        next(&mut stream).unwrap(),
        "event: set\ndata: {\"body\":\"\",\"diff\":true,\"title\":\"T\"}\n\n"
    );
    page.set_title("T".to_string());
    assert_eq!(next(&mut stream), None);
    page.set_body("B".to_string());
    assert_eq!(
        next(&mut stream).unwrap(),
        "event: set\ndata: {\"body\":\"B\",\"diff\":true,\"title\":\"T\"}\n\n"
    );
    page.set_body("B".to_string());
    assert_eq!(next(&mut stream), None);
}

#[test]
fn new_totals_are_told() {
    let (mut page, mut stream) = watched();
    page.event_stream("[\"click\"]");
    assert_eq!(next(&mut stream).unwrap(), "event: subscribe\ndata: [\"click\"]\n\n");
    page.send_event(None);
    assert_eq!(next(&mut stream), None);
    page.send_event(Some("[]"));
    assert_eq!(next(&mut stream).unwrap(), "event: subscribe\ndata: []\n\n");
    assert_eq!(page.change_subscription(Ok(Some("[\"keyup\"]"))), Ok(()));
    assert_eq!(next(&mut stream).unwrap(), "event: subscribe\ndata: [\"keyup\"]\n\n");
    assert_eq!(page.change_subscription(Ok(None)), Ok(()));
    assert_eq!(next(&mut stream), None);
    assert_eq!(page.change_subscription(Err(())), Err(()));
    assert_eq!(next(&mut stream), None);
}

#[test]
fn a_heartbeat_counts_clients_and_passes_on_a_new_total() {
    let (mut page, mut stream) = watched();
    assert_eq!(page.send_heartbeat(None), Some(1));
    assert_eq!(next(&mut stream).unwrap(), ":\n\n");
    assert_eq!(next(&mut stream), None);
    assert_eq!(page.send_heartbeat(Some("[]")), Some(1));
    assert_eq!(next(&mut stream).unwrap(), "event: subscribe\ndata: []\n\n");
    drop(stream);
    assert_eq!(page.send_heartbeat(None), Some(0));
    page.set_static(None, Vec::new());
    assert_eq!(page.send_heartbeat(Some("[]")), None);
}

#[test]
fn clear_empties_the_page() {
    let mut page = Page::<u32>::new();
    page.set_title("T".to_string());
    page.set_body("B".to_string());
    page.clear("[]");
    assert!(page.is_empty(true));
    page.set_static(Some("text/plain".to_string()), b"raw".to_vec());
    page.clear("[]");
    assert!(page.is_empty(true));
    assert_eq!(page.content_type(), None);
}

#[test]
fn clear_of_an_empty_page_tells_the_subscriptions_only() {
    let (mut page, mut stream) = watched();
    page.clear("[]");
    assert_eq!(next(&mut stream).unwrap(), "event: subscribe\ndata: []\n\n");
    assert_eq!(next(&mut stream), None);
}

#[test]
fn clear_ends_with_the_empty_contents() {
    let (mut page, mut stream) = watched();
    page.set_title("T".to_string());
    page.set_body("B".to_string());
    page.clear("[]");
    assert_eq!(
        next(&mut stream).unwrap(),
        "event: set\ndata: {\"body\":\"\",\"diff\":true,\"title\":\"\"}\n\n"
    );
    assert_eq!(next(&mut stream), None);
}

#[test]
fn messages_arrive_in_the_order_of_sending() {
    let (mut page, mut stream) = watched();
    page.evaluate(1, 10, "x", false, None).unwrap();
    assert_eq!(
        next(&mut stream).unwrap(),
        "id: 00000000000000000000000000000001\nevent: evaluate\ndata: x\n\n"
    );
    page.set_title("T".to_string());
    assert_eq!(
        next(&mut stream).unwrap(),
        "event: set\ndata: {\"body\":\"\",\"diff\":true,\"title\":\"T\"}\n\n"
    );
    page.event_stream("[1]");
    assert_eq!(next(&mut stream).unwrap(), "event: subscribe\ndata: [1]\n\n");
    assert_eq!(next(&mut stream), None);
}

#[test]
fn a_client_that_read_before_and_lags_goes_on_with_the_newest_message() {
    let (mut page, mut stream) = watched();
    page.event_stream("[1]");
    assert_eq!(next(&mut stream).unwrap(), "event: subscribe\ndata: [1]\n\n");
    page.event_stream("[2]");
    page.event_stream("[3]");
    page.event_stream("[4]");
    assert_eq!(next(&mut stream).unwrap(), "event: subscribe\ndata: [4]\n\n");
    assert_eq!(next(&mut stream), None);
    page.event_stream("[5]");
    assert_eq!(next(&mut stream).unwrap(), "event: subscribe\ndata: [5]\n\n");
}

#[test]
fn a_page_that_became_static_is_not_dynamic() {
    let mut page = Page::<u32>::new();
    assert!(page.is_dynamic());
    page.set_static(None, Vec::new());
    assert!(!page.is_dynamic());
    page.set_body("B".to_string());
    assert!(page.is_dynamic());
    assert_eq!(page.send_heartbeat(None), Some(0));
}

#[test]
fn a_static_page_cannot_evaluate() {
    let mut page = Page::new();
    page.set_static(None, Vec::new());
    let result = page.evaluate(1, 10, "x", false, None);
    assert!(matches!(result, Err(EvalError::StaticPage)));
    assert_eq!(page.send_evaluate_result(1), None);
}

#[test]
fn a_page_that_nobody_views_cannot_evaluate() {
    let mut page = Page::new();
    let result = page.evaluate(1, 10, "x", false, None);
    assert!(matches!(result, Err(EvalError::NoBrowser)));
    assert_eq!(page.send_evaluate_result(1), None);
    assert!(page.is_empty(true));
}

#[test]
fn an_evaluation_is_asked_for_and_answered() {
    let (mut page, mut stream) = watched();
    let wait = page.evaluate(1, 10, "x", false, None).unwrap();
    assert_eq!(wait, Wait { id: 1, duration: Duration { secs: 1, nanos: 0 }, was_custom: false });
    assert_eq!(
        next(&mut stream).unwrap(),
        "id: 00000000000000000000000000000001\nevent: evaluate\ndata: x\n\n"
    );
    assert!(!page.is_empty_with(0, true));
    assert_eq!(page.send_evaluate_result(2), None);
    assert_eq!(page.send_evaluate_result(1), Some(10));
    assert_eq!(page.send_evaluate_result(1), None);
    assert!(matches!(page.finish(wait, Outcome::Answer(Ok("value"))), Ok("value")));
    assert!(page.is_empty_with(0, true));
}

#[test]
fn an_exception_and_a_dropped_waiter_are_errors() {
    let (mut page, _stream) = watched();
    let wait = page.evaluate(1, 10, "x", true, None).unwrap();
    let thrown: Outcome<u32> = Outcome::Answer(Err("boom".to_string()));
    match page.finish(wait, thrown) {
        Err(EvalError::JsError(exception)) => assert_eq!(exception, "boom"),
        _ => panic!("an exception is an error"),
    }
    let dropped: Outcome<u32> = Outcome::Dropped;
    assert!(matches!(page.finish(wait, dropped), Err(EvalError::NoResponsePossible)));
    assert_eq!(page.send_evaluate_result(1), Some(10));
}

#[test]
fn a_timeout_gives_the_evaluation_up() {
    let (mut page, mut stream) = watched();
    let timeout = Duration::from_millis(50);
    let wait = page.evaluate(1, 10, "x", true, Some(timeout)).unwrap();
    assert_eq!(
        next(&mut stream).unwrap(),
        "id: 00000000000000000000000000000001\nevent: run\ndata: x\n\n"
    );
    let late: Outcome<u32> = Outcome::TimedOut;
    match page.finish(wait, late) {
        Err(EvalError::Timeout { duration, was_custom }) => {
            assert_eq!(duration, timeout);
            assert!(was_custom);
        }
        _ => panic!("a timeout is an error"),
    }
    assert_eq!(page.send_evaluate_result(1), None);
}

#[test]
fn waiting_depends_on_the_number_of_clients() {
    let (mut page, _stream) = watched();
    assert!(page.evaluate(1, 10, "x", false, None).is_ok());
    assert!(page.await_result(1, None, 2).is_ok());
    assert!(matches!(page.await_result(1, None, 0), Err(EvalError::NoBrowser)));
    assert_eq!(page.send_evaluate_result(1), None);
}
