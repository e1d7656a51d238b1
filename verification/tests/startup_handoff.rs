use autofill::record::AutofillData;
use autofill::startup::{restore, Handoff, HandoffAction, HandoffEvent, Phase};

fn stored() -> AutofillData {
    AutofillData { id: Some("7".to_string()), ..AutofillData::default() }
}

#[test]
fn restore_reads_a_stored_record() {
    let r = restore(Ok("{\"id\":\"7\"}".to_string()));
    assert_eq!(r.record, stored());
    assert_eq!(r.complaint, None);
}

#[test]
fn restore_falls_back_when_the_store_is_missing() {
    let r = restore(Err("No such file or directory (os error 2)".to_string()));
    assert_eq!(r.record, AutofillData::fallback());
    assert_eq!(
        r.complaint.as_deref(),
        Some("failed to get user information: No such file or directory (os error 2)")
    );
}

#[test]
fn restore_falls_back_when_the_store_is_corrupted() {
    for text in ["", "{", "][", "null", "[1]", "{\"email\":5}", "{\"name\":[\"a\"]}"] {
        let r = restore(Ok(text.to_string()));
        assert_eq!(r.record, AutofillData::fallback(), "{}", text);
        let complaint = r.complaint.unwrap();
        assert!(complaint.starts_with("failed to get user information: "), "{}", complaint);
        assert!(complaint.len() > "failed to get user information: ".len());
    }
}

#[test]
fn restore_names_what_is_wrong_with_the_record() {
    let r = restore(Ok("{\"email\":5}".to_string()));
    assert_eq!(
        r.complaint.as_deref(),
        Some("failed to get user information: a value of the wrong kind in the member email")
    );
    let r = restore(Ok("[]".to_string()));
    assert_eq!(
        r.complaint.as_deref(),
        Some("failed to get user information: a JSON object was expected")
    );
}

#[test]
fn the_handoff_runs_in_three_steps() {
    let mut app = Handoff::new();
    assert_eq!(app.phase(), Phase::Launched);
    assert!(!app.is_serving());
    assert!(app.cell().is_none());

    assert!(matches!(app.step(HandoffEvent::InitializerBegan), HandoffAction::ReadStore));
    assert_eq!(app.phase(), Phase::Begun);
    assert!(app.cell().is_none());

    match app.step(HandoffEvent::StoreRead(Ok("{\"id\":\"7\"}".to_string()))) {
        HandoffAction::Deliver { keeper, complaint } => {
            assert_eq!(*keeper.known(), stored());
            assert_eq!(complaint, None);
        }
        other => panic!("{:?}", other),
    }
    assert_eq!(app.phase(), Phase::Sent);
    assert!(!app.is_serving());
    assert!(app.cell().is_none());

    assert!(matches!(app.step(HandoffEvent::CellReceived), HandoffAction::Serve));
    assert_eq!(app.phase(), Phase::Installed);
    assert!(app.is_serving());
    let cell = app.cell().unwrap();
    assert_eq!(*cell.snapshot(), stored());
    assert!(cell.is_listening());
    assert!(!cell.is_closed());
}

#[test]
fn a_missing_store_seeds_the_cell_with_the_fallback() {
    let mut app = Handoff::new();
    app.step(HandoffEvent::InitializerBegan);
    match app.step(HandoffEvent::StoreRead(Err("gone".to_string()))) {
        HandoffAction::Deliver { keeper, complaint } => {
            assert_eq!(*keeper.known(), AutofillData::fallback());
            assert_eq!(complaint.as_deref(), Some("failed to get user information: gone"));
        }
        other => panic!("{:?}", other),
    }
    app.step(HandoffEvent::CellReceived);
    assert_eq!(*app.cell().unwrap().snapshot(), AutofillData::fallback());
}

fn events() -> Vec<HandoffEvent> {
    vec![
        HandoffEvent::InitializerBegan,
        HandoffEvent::StoreRead(Ok("{}".to_string())),
        HandoffEvent::CellReceived,
        HandoffEvent::SignalLost,
    ]
}

#[test]
fn an_event_out_of_turn_fails_the_handoff() {
    for reached in 0..3 {
        for wrong in 0..4 {
            if wrong == reached {
                continue;
            }
            let mut app = Handoff::new();
            for event in events().into_iter().take(reached) {
                app.step(event);
            }
            let event = events().into_iter().nth(wrong).unwrap();
            assert!(matches!(app.step(event), HandoffAction::Abort), "{} {}", reached, wrong);
            assert_eq!(app.phase(), Phase::Failed);
            assert!(app.cell().is_none());
            for event in events() {
                assert!(matches!(app.step(event), HandoffAction::Nothing));
                assert_eq!(app.phase(), Phase::Failed);
                assert!(!app.is_serving());
            }
        }
    }
}

#[test]
fn nothing_is_served_before_the_cell_is_received() {
    for first in 0..4 {
        for second in 0..4 {
            let mut app = Handoff::new();
            app.step(events().into_iter().nth(first).unwrap());
            assert!(!app.is_serving());
            app.step(events().into_iter().nth(second).unwrap());
            assert!(!app.is_serving());
            assert!(app.cell().is_none());
            assert!(app.publish(AutofillData::default()).is_err());
        }
    }
}

#[test]
fn an_installed_cell_stays_installed() {
    let mut app = Handoff::new();
    for event in events().into_iter().take(3) {
        app.step(event);
    }
    app.publish(stored()).unwrap();
    for event in events() {
        assert!(matches!(app.step(event), HandoffAction::Nothing));
        assert_eq!(app.phase(), Phase::Installed);
        assert_eq!(*app.cell().unwrap().snapshot(), stored());
    }
}

#[test]
fn publish_needs_a_waiter() {
    let mut app = Handoff::new();
    for event in events().into_iter().take(3) {
        app.step(event);
    }
    assert!(app.publish(stored()).is_ok());
    app.stop_listening();
    assert_eq!(app.publish(AutofillData::fallback()), Err(AutofillData::fallback()));
    assert_eq!(*app.cell().unwrap().snapshot(), stored());
}

#[test]
fn close_and_stop_listening_need_an_installed_cell() {
    let mut app = Handoff::new();
    app.close();
    app.stop_listening();
    assert_eq!(app.phase(), Phase::Launched);
    for event in events().into_iter().take(3) {
        app.step(event);
    }
    app.close();
    assert!(app.cell().unwrap().is_closed());
    assert!(app.cell().unwrap().is_listening());
}
