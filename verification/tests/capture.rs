use translator::capture::{
    capture_step, CaptureAction, CaptureEvent, CaptureState, MAIN_WINDOW, SELECTION_EVENT,
    SETTLE_DELAY_MILLIS,
};

fn read(text: Option<&str>) -> CaptureEvent {
    CaptureEvent::ClipboardRead { text: text.map(|t| t.to_string()) }
}

#[test]
fn a_press_runs_copy_wait_read_deliver() {
    let (state, action) = capture_step(CaptureState::Idle, CaptureEvent::Triggered);
    assert_eq!((state, action), (CaptureState::Copying, CaptureAction::IssueCopy));
    let (state, action) = capture_step(state, CaptureEvent::CopyIssued);
    assert_eq!((state, action), (CaptureState::Settling, CaptureAction::Wait { millis: 100 }));
    let (state, action) = capture_step(state, CaptureEvent::DelayElapsed);
    assert_eq!((state, action), (CaptureState::Reading, CaptureAction::ReadClipboard));
    let (state, action) = capture_step(state, read(Some("selected text")));
    assert_eq!(
        (state, action),
        (CaptureState::Idle, CaptureAction::Deliver { text: "selected text".to_string() })
    );
}

#[test]
fn an_empty_or_unreadable_clipboard_ends_the_run_in_silence() {
    assert_eq!(
        capture_step(CaptureState::Reading, read(Some(""))),
        (CaptureState::Idle, CaptureAction::Rest)
    );
    assert_eq!(
        capture_step(CaptureState::Reading, read(None)),
        (CaptureState::Idle, CaptureAction::Rest)
    );
    assert_eq!(
        capture_step(CaptureState::Reading, read(Some(" "))),
        (CaptureState::Idle, CaptureAction::Deliver { text: " ".to_string() })
    );
}

#[test]
fn an_event_out_of_turn_changes_nothing() {
    assert_eq!(
        capture_step(CaptureState::Idle, read(Some("x"))),
        (CaptureState::Idle, CaptureAction::Rest)
    );
    assert_eq!(
        capture_step(CaptureState::Idle, CaptureEvent::DelayElapsed),
        (CaptureState::Idle, CaptureAction::Rest)
    );
    assert_eq!(
        capture_step(CaptureState::Copying, CaptureEvent::Triggered),
        (CaptureState::Copying, CaptureAction::Rest)
    );
    assert_eq!(
        capture_step(CaptureState::Copying, CaptureEvent::DelayElapsed),
        (CaptureState::Copying, CaptureAction::Rest)
    );
    assert_eq!(
        capture_step(CaptureState::Settling, read(Some("x"))),
        (CaptureState::Settling, CaptureAction::Rest)
    );
    assert_eq!(
        capture_step(CaptureState::Settling, CaptureEvent::CopyIssued),
        (CaptureState::Settling, CaptureAction::Rest)
    );
    assert_eq!(
        capture_step(CaptureState::Reading, CaptureEvent::Triggered),
        (CaptureState::Reading, CaptureAction::Rest)
    );
}

#[test]
fn the_names_and_the_delay_of_the_pipeline() {
    assert_eq!(SETTLE_DELAY_MILLIS, 100);
    assert_eq!(SELECTION_EVENT, "translate-selection");
    assert_eq!(MAIN_WINDOW, "main");
}
