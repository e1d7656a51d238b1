use autofill::cell::{LoopStep, PersistenceLoop};
use autofill::commands::{
    confirm_request, confirm_request_reply, fetch_request_info, fetch_request_info_reply,
    load_data_from_store, store_data_to_store, try_load_data_from_store,
};
use autofill::gateway::{HttpReply, Method};
use autofill::record::{AutofillData, RequestedAutofillFields};
use autofill::startup::{Handoff, HandoffAction, HandoffEvent, LoadAnswer};

fn started(read: Result<String, String>) -> (Handoff, PersistenceLoop) {
    let mut app = Handoff::new();
    assert!(matches!(app.step(HandoffEvent::InitializerBegan), HandoffAction::ReadStore));
    let keeper = match app.step(HandoffEvent::StoreRead(read)) {
        HandoffAction::Deliver { keeper, .. } => keeper,
        other => panic!("{:?}", other),
    };
    assert!(matches!(app.step(HandoffEvent::CellReceived), HandoffAction::Serve));
    (app, keeper)
}

fn with_email(email: &str) -> AutofillData {
    AutofillData { email: Some(email.to_string()), ..AutofillData::default() }
}

#[test]
fn a_missing_store_then_load_then_confirm() {
    let (app, _keeper) = started(Err("No such file or directory (os error 2)".to_string()));
    assert_eq!(load_data_from_store(&app), AutofillData::fallback());

    let filter = RequestedAutofillFields { email: true, ..RequestedAutofillFields::none() };
    let request = confirm_request(&app, "abc123", filter).unwrap();
    assert_eq!(request.method, Method::Post);
    assert_eq!(request.url, "https://absher-zt.vrtgs.xyz/requests/abc123");
    assert!(request.url.ends_with("/abc123"));
    assert_eq!(request.body.as_deref(), Some("{\"email\":\"mail@mail.com\"}"));

    let reply = HttpReply::Answer { status: 200, body: String::new() };
    assert_eq!(confirm_request_reply(reply), Ok(()));
}

#[test]
fn an_empty_store_gives_the_fallback() {
    let (app, _keeper) = started(Ok(String::new()));
    assert_eq!(load_data_from_store(&app), AutofillData::fallback());
}

#[test]
fn load_gives_what_was_stored() {
    let (mut app, _keeper) = started(Ok("{\"email\":\"a\"}".to_string()));
    assert_eq!(load_data_from_store(&app), with_email("a"));
    store_data_to_store(&mut app, with_email("b"));
    assert_eq!(load_data_from_store(&app), with_email("b"));
    store_data_to_store(&mut app, AutofillData::default());
    assert_eq!(load_data_from_store(&app), AutofillData::default());
}

#[test]
fn store_leads_to_one_write_of_the_latest_record() {
    let (mut app, mut keeper) = started(Ok("{\"email\":\"a\"}".to_string()));
    assert!(matches!(keeper.step(app.cell().unwrap()), LoopStep::Wait));
    store_data_to_store(&mut app, with_email("A"));
    store_data_to_store(&mut app, with_email("B"));
    match keeper.step(app.cell().unwrap()) {
        LoopStep::Write(text) => assert_eq!(text, "{\"email\":\"B\"}"),
        other => panic!("{:?}", other),
    }
    assert!(matches!(keeper.step(app.cell().unwrap()), LoopStep::Wait));
    store_data_to_store(&mut app, with_email("B"));
    assert!(matches!(keeper.step(app.cell().unwrap()), LoopStep::Wait));
}

#[test]
fn confirm_sends_only_what_is_asked_for_and_present() {
    let (mut app, _keeper) = started(Err("gone".to_string()));
    let nothing = confirm_request(&app, "c", RequestedAutofillFields::none()).unwrap();
    assert_eq!(nothing.body.as_deref(), Some("{}"));

    let filter = RequestedAutofillFields {
        name: true,
        license: true,
        ..RequestedAutofillFields::none()
    };
    let request = confirm_request(&app, "c", filter).unwrap();
    assert_eq!(request.body.as_deref(), Some("{\"name\":[\"foo\",\"bar\"]}"));

    store_data_to_store(&mut app, with_email("x"));
    let request = confirm_request(&app, "c", RequestedAutofillFields::all()).unwrap();
    assert_eq!(request.body.as_deref(), Some("{\"email\":\"x\"}"));
}

#[test]
fn confirm_fails_in_words() {
    let (app, _keeper) = started(Err("gone".to_string()));
    let message = confirm_request(&app, "https://[", RequestedAutofillFields::all()).unwrap_err();
    assert!(!message.is_empty());
    assert_eq!(
        confirm_request_reply(HttpReply::Answer { status: 500, body: "oops".to_string() }),
        Err("HTTP status 500".to_string())
    );
    assert_eq!(
        confirm_request_reply(HttpReply::Answer { status: 302, body: String::new() }),
        Err("HTTP status 302".to_string())
    );
    assert_eq!(
        confirm_request_reply(HttpReply::Failure("timed out".to_string())),
        Err("timed out".to_string())
    );
}

#[test]
fn fetch_asks_with_a_get() {
    let request = fetch_request_info("abc123").unwrap();
    assert_eq!(request.method, Method::Get);
    assert_eq!(request.url, "https://absher-zt.vrtgs.xyz/requests/abc123");
    assert_eq!(request.body, None);
    assert!(!fetch_request_info("https://[").unwrap_err().is_empty());
}

#[test]
fn fetch_reads_the_mask() {
    let reply = HttpReply::Answer { status: 200, body: "{\"phone_number\":true}".to_string() };
    assert_eq!(
        fetch_request_info_reply(reply),
        Ok(RequestedAutofillFields { phone_number: true, ..RequestedAutofillFields::none() })
    );
}

#[test]
fn fetch_fails_in_words() {
    assert_eq!(
        fetch_request_info_reply(HttpReply::Answer { status: 404, body: "{}".to_string() }),
        Err("HTTP status 404".to_string())
    );
    assert_eq!(
        fetch_request_info_reply(HttpReply::Failure("dns error".to_string())),
        Err("dns error".to_string())
    );
    assert_eq!(
        fetch_request_info_reply(HttpReply::Answer { status: 200, body: "7".to_string() }),
        Err("a JSON object was expected".to_string())
    );
    assert_eq!(
        fetch_request_info_reply(HttpReply::Answer {
            status: 200,
            body: "{\"id\":\"yes\"}".to_string()
        }),
        Err("a value of the wrong kind in the member id".to_string())
    );
    let syntax =
        fetch_request_info_reply(HttpReply::Answer { status: 200, body: "{".to_string() });
    assert!(syntax.unwrap_err().contains("line 1"));
}

#[test]
fn a_load_that_comes_early_is_told_to_wait() {
    let mut app = Handoff::new();
    assert!(matches!(try_load_data_from_store(&app), LoadAnswer::NotYet));
    assert!(app.publish(with_email("early")).is_err());
    app.step(HandoffEvent::InitializerBegan);
    assert!(matches!(try_load_data_from_store(&app), LoadAnswer::NotYet));
    app.step(HandoffEvent::StoreRead(Ok("{\"email\":\"a\"}".to_string())));
    assert!(matches!(try_load_data_from_store(&app), LoadAnswer::NotYet));
    assert!(app.publish(with_email("early")).is_err());
    app.step(HandoffEvent::CellReceived);
    assert!(matches!(try_load_data_from_store(&app), LoadAnswer::Ready(r) if r == with_email("a")));
    store_data_to_store(&mut app, with_email("b"));
    assert!(matches!(try_load_data_from_store(&app), LoadAnswer::Ready(r) if r == with_email("b")));
}

#[test]
fn a_load_after_a_failed_startup_is_told_so() {
    let mut app = Handoff::new();
    app.step(HandoffEvent::SignalLost);
    assert!(matches!(try_load_data_from_store(&app), LoadAnswer::Never));
    let mut app = Handoff::new();
    app.step(HandoffEvent::InitializerBegan);
    app.step(HandoffEvent::CellReceived);
    assert!(matches!(try_load_data_from_store(&app), LoadAnswer::Never));
}
