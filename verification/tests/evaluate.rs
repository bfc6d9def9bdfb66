use myxine::evaluate::{evaluate_text, Duration, EvalError, Wait, DEFAULT_EVAL_TIMEOUT};
use myxine::queries::Queries;
use myxine::template::{Part, Template};

#[test]
fn errors_read_as_documented() {
    assert_eq!(EvalError::NoBrowser.to_string(), "No browser is currently viewing the page");
    assert_eq!(
        EvalError::StaticPage.to_string(),
        "The page is static, which means it cannot run scripts"
    );
    assert_eq!(EvalError::NoResponsePossible.to_string(), "Internal error: page handle dropped");
    assert_eq!(
        EvalError::JsError("ReferenceError: x".to_string()).to_string(),
        "Exception: ReferenceError: x"
    );
}

#[test]
fn timeouts_read_in_milliseconds() {
    let custom = EvalError::Timeout { duration: Duration::from_millis(250), was_custom: true };
    assert_eq!(custom.to_string(), "Exceeded custom timeout of 250ms");
    let default =
        EvalError::Timeout { duration: Duration::from_millis(DEFAULT_EVAL_TIMEOUT), was_custom: false };
    assert_eq!(default.to_string(), "Exceeded default timeout of 1000ms");
    let none = EvalError::Timeout { duration: Duration::from_millis(0), was_custom: true };
    assert_eq!(none.to_string(), "Exceeded custom timeout of 0ms");
    let longest = Duration { secs: u64::MAX, nanos: 999_999_999 };
    let longest = EvalError::Timeout { duration: longest, was_custom: true };
    assert_eq!(longest.to_string(), "Exceeded custom timeout of 18446744073709551615999ms");
}

#[test]
fn durations_agree_with_the_standard_library() {
    for millis in [0, 1, 999, 1000, 1001, 123_456_789, u64::MAX] {
        let duration = Duration::from_millis(millis);
        let standard = std::time::Duration::from_millis(millis);
        assert_eq!(duration.secs, standard.as_secs());
        assert_eq!(duration.nanos, standard.subsec_nanos());
        assert_eq!(duration.as_millis(), standard.as_millis());
    }
    assert_eq!(Duration { secs: 2, nanos: 1_999_999 }.as_millis(), 2001);
}

#[test]
fn requests_carry_identifier_type_and_code() {
    assert_eq!(
        evaluate_text(0x936da01f9abd4d9d80c702af85c822a8, "1 + 1", false),
        "id: 936da01f9abd4d9d80c702af85c822a8\nevent: evaluate\ndata: 1 + 1\n\n"
    );
    assert_eq!(
        evaluate_text(3, "let x = 1;\nreturn x;", true),
        "id: 00000000000000000000000000000003\nevent: run\ndata: let x = 1;\ndata: return x;\n\n"
    );
    assert_eq!(
        evaluate_text(u128::MAX, "", false),
        "id: ffffffffffffffffffffffffffffffff\nevent: evaluate\n\n"
    );
}

#[test]
fn requests_are_told_apart() {
    assert_ne!(evaluate_text(1, "x", false), evaluate_text(2, "x", false));
    assert_ne!(evaluate_text(1, "x", false), evaluate_text(1, "x", true));
    assert_ne!(evaluate_text(1, "x", false), evaluate_text(1, "y", false));
    assert_eq!(evaluate_text(1, "x\ny", false), evaluate_text(1, "x\r\ny\n", false));
}

#[test]
fn a_request_has_no_blank_line_inside() {
    let text = evaluate_text(1, "a\n\n\nb", false);
    assert_eq!(text.find("\n\n"), Some(text.len() - 2));
}

#[test]
fn waits_have_a_default() {
    let default = Wait::new(7, None);
    assert_eq!(default, Wait { id: 7, duration: Duration { secs: 1, nanos: 0 }, was_custom: false });
    let custom = Wait::new(7, Some(Duration { secs: 1, nanos: 0 }));
    assert_eq!(custom, Wait { id: 7, duration: Duration { secs: 1, nanos: 0 }, was_custom: true });
}

#[test]
fn queries_answer_once() {
    let mut queries = Queries::new();
    assert!(queries.is_empty());
    queries.request(1, "one");
    queries.request(2, "two");
    assert!(!queries.is_empty());
    assert_eq!(queries.respond(1), Some("one"));
    assert_eq!(queries.respond(1), None);
    queries.cancel(3);
    assert!(!queries.is_empty());
    queries.cancel(2);
    assert!(queries.is_empty());
    assert_eq!(queries.respond(2), None);
}

#[test]
fn templates_are_filled_in_order() {
    let template = Template {
        parts: vec![
            Part::Text("<title>".to_string()),
            Part::Title,
            Part::Text("</title>".to_string()),
            Part::Body,
            Part::Debug,
            Part::Subscription,
            Part::Title,
        ],
    };
    assert_eq!(
        template.fill(false, "\u{fc}", "[]", "<b>"),
        "<title>\u{fc}</title><b>false[]\u{fc}".as_bytes().to_vec()
    );
    assert_eq!(template.fill(true, "", "", ""), b"<title></title>true".to_vec());
    assert_eq!(Template { parts: Vec::new() }.fill(true, "a", "b", "c"), Vec::<u8>::new());
}
