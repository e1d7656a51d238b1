use autofill::gateway::{
    request_url, status_is_success, GatewayError, HttpReply, HttpRequest, Method, BASE_URL,
};
use autofill::record::{AutofillData, Field, RequestedAutofillFields};
use autofill::wire::WireError;

fn answer(status: u16, body: &str) -> HttpReply {
    HttpReply::Answer { status, body: body.to_string() }
}

#[test]
fn the_base_address() {
    assert_eq!(BASE_URL, "https://absher-zt.vrtgs.xyz/requests/");
}

#[test]
fn a_code_is_joined_to_the_base() {
    assert_eq!(request_url("abc123").unwrap(), "https://absher-zt.vrtgs.xyz/requests/abc123");
    assert_eq!(request_url("").unwrap(), "https://absher-zt.vrtgs.xyz/requests/");
    assert_eq!(request_url("a b").unwrap(), "https://absher-zt.vrtgs.xyz/requests/a%20b");
}

#[test]
fn a_code_is_resolved_as_a_reference() {
    assert_eq!(request_url("../x").unwrap(), "https://absher-zt.vrtgs.xyz/x");
    assert_eq!(request_url("/v1/meta").unwrap(), "https://absher-zt.vrtgs.xyz/v1/meta");
    assert_eq!(request_url("//eve.com/b").unwrap(), "https://eve.com/b");
    assert_eq!(request_url("http://eve.com/b").unwrap(), "http://eve.com/b");
    assert_eq!(request_url("a/b?c=d").unwrap(), "https://absher-zt.vrtgs.xyz/requests/a/b?c=d");
}

#[test]
fn a_code_that_gives_no_address_is_refused() {
    match request_url("https://[") {
        Err(GatewayError::Url(message)) => assert!(!message.is_empty()),
        other => panic!("{:?}", other),
    }
    assert!(matches!(HttpRequest::fetch("https://["), Err(GatewayError::Url(_))));
    let record = AutofillData::fallback();
    assert!(matches!(
        HttpRequest::submit("https://[", &record.as_ref()),
        Err(GatewayError::Url(_))
    ));
}

#[test]
fn a_fetch_is_a_get_without_a_body() {
    let request = HttpRequest::fetch("abc123").unwrap();
    assert_eq!(request.method, Method::Get);
    assert_eq!(request.url, "https://absher-zt.vrtgs.xyz/requests/abc123");
    assert_eq!(request.body, None);
}

#[test]
fn a_submission_is_a_post_with_the_record() {
    let record = AutofillData::fallback();
    let mask = RequestedAutofillFields { email: true, ..RequestedAutofillFields::none() };
    let request = HttpRequest::submit("abc123", &record.disclose(mask)).unwrap();
    assert_eq!(request.method, Method::Post);
    assert_eq!(request.url, "https://absher-zt.vrtgs.xyz/requests/abc123");
    assert_eq!(request.body.as_deref(), Some("{\"email\":\"mail@mail.com\"}"));
}

#[test]
fn success_is_two_hundred_to_two_hundred_ninety_nine() {
    for status in 0..=u16::MAX {
        assert_eq!(status_is_success(status), (200..300).contains(&status));
    }
}

#[test]
fn a_successful_answer_gives_its_mask() {
    let mask = answer(200, "{\"email\":true,\"id\":false}").into_mask().unwrap();
    assert_eq!(mask, RequestedAutofillFields { email: true, ..RequestedAutofillFields::none() });
    let mask = answer(299, "{}").into_mask().unwrap();
    assert_eq!(mask, RequestedAutofillFields::none());
}

#[test]
fn an_answer_without_success_gives_no_mask() {
    for status in [0, 100, 199, 300, 301, 404, 500, 65535] {
        match answer(status, "{\"email\":true}").into_mask() {
            Err(GatewayError::Status(s)) => assert_eq!(s, status),
            other => panic!("{:?}", other),
        }
    }
}

#[test]
fn a_body_that_is_no_mask_is_refused() {
    assert!(matches!(
        answer(200, "{\"email\":1}").into_mask(),
        Err(GatewayError::Body(WireError::WrongKind(Field::Email)))
    ));
    assert!(matches!(
        answer(200, "[]").into_mask(),
        Err(GatewayError::Body(WireError::NotAnObject))
    ));
    assert!(matches!(
        answer(200, "<html>").into_mask(),
        Err(GatewayError::Body(WireError::Syntax(_)))
    ));
}

#[test]
fn no_answer_is_a_transport_error() {
    match HttpReply::Failure("connection refused".to_string()).into_mask() {
        Err(GatewayError::Transport(message)) => assert_eq!(message, "connection refused"),
        other => panic!("{:?}", other),
    }
    match HttpReply::Failure("connection refused".to_string()).into_done() {
        Err(GatewayError::Transport(message)) => assert_eq!(message, "connection refused"),
        other => panic!("{:?}", other),
    }
}

#[test]
fn a_submission_is_done_on_success_alone() {
    for status in 0..=u16::MAX {
        let done = answer(status, "whatever").into_done();
        if (200..300).contains(&status) {
            assert!(done.is_ok());
        } else {
            assert!(matches!(done, Err(GatewayError::Status(s)) if s == status));
        }
    }
}

#[test]
fn gateway_messages_say_what_went_wrong() {
    assert_eq!(GatewayError::Url("bad".to_string()).message(), "bad");
    assert_eq!(GatewayError::Transport("down".to_string()).message(), "down");
    assert_eq!(GatewayError::Body(WireError::NotAnObject).message(), "a JSON object was expected");
    for status in [0u16, 7, 10, 99, 100, 404, 1000, 9999, 10000, 65535] {
        assert_eq!(GatewayError::Status(status).message(), format!("HTTP status {}", status));
    }
}
