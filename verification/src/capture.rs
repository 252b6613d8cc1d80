//! What a press of the global shortcut sets off: copy the selection, let the copy settle,
//! read the clipboard, and hand the text to the user interface.
//!
//! The steps are carried out by the caller, away from the thread that delivers the
//! hotkey. The order of the steps is decided here. Whether the copy took place is not
//! known and not asked: the pipeline waits a fixed time and reads what is there. A
//! clipboard that cannot be read, or that holds no text, ends the pipeline without a
//! trace.

use vstd::prelude::*;

verus! {

/// The time to let the simulated copy settle, in milliseconds.
pub const SETTLE_DELAY_MILLIS: u64 = 100;

/// The name under which a captured selection is announced.
pub const SELECTION_EVENT: &'static str = "translate-selection";

/// The label of the window that receives the selection.
pub const MAIN_WINDOW: &'static str = "main";

/// Where one run of the pipeline stands.
#[derive(Clone, Copy, Debug, PartialEq, Eq, Structural)]
pub enum CaptureState {
    /// Nothing is under way.
    Idle,
    /// The copy of the selection has been asked for.
    Copying,
    /// The copy is given time to settle.
    Settling,
    /// The clipboard is being read.
    Reading,
}

/// What happened since the last step.
#[derive(Debug)]
pub enum CaptureEvent {
    /// The global shortcut was pressed.
    Triggered,
    /// The copy of the selection was asked for; how that went is not known.
    CopyIssued,
    /// The settle delay is over.
    DelayElapsed,
    /// The clipboard was read; `text` is `None` where that failed.
    ClipboardRead { text: Option<String> },
}

/// What the caller is to do after a step.
#[derive(Debug, PartialEq, Eq)]
pub enum CaptureAction {
    /// Ask the platform to copy the current selection.
    IssueCopy,
    /// Wait for so many milliseconds.
    Wait { millis: u64 },
    /// Read the clipboard as text.
    ReadClipboard,
    /// Show and focus the main window, then announce `text` once under
    /// [`SELECTION_EVENT`].
    Deliver { text: String },
    /// Nothing.
    Rest,
}

/// The mathematical content of a [`CaptureEvent`].
pub enum CaptureEventView {
    Triggered,
    CopyIssued,
    DelayElapsed,
    ClipboardRead { text: Option<Seq<char>> },
}

/// The mathematical content of a [`CaptureAction`].
pub enum CaptureActionView {
    IssueCopy,
    Wait { millis: u64 },
    ReadClipboard,
    Deliver { text: Seq<char> },
    Rest,
}

impl View for CaptureEvent {
    type V = CaptureEventView;

    open spec fn view(&self) -> CaptureEventView {
        match self {
            CaptureEvent::Triggered => CaptureEventView::Triggered,
            CaptureEvent::CopyIssued => CaptureEventView::CopyIssued,
            CaptureEvent::DelayElapsed => CaptureEventView::DelayElapsed,
            CaptureEvent::ClipboardRead { text } => CaptureEventView::ClipboardRead {
                text: match text {
                    Some(t) => Some(t@),
                    None => None,
                },
            },
        }
    }
}

impl View for CaptureAction {
    type V = CaptureActionView;

    open spec fn view(&self) -> CaptureActionView {
        match self {
            CaptureAction::IssueCopy => CaptureActionView::IssueCopy,
            CaptureAction::Wait { millis } => CaptureActionView::Wait { millis: *millis },
            CaptureAction::ReadClipboard => CaptureActionView::ReadClipboard,
            CaptureAction::Deliver { text } => CaptureActionView::Deliver { text: text@ },
            CaptureAction::Rest => CaptureActionView::Rest,
        }
    }
}

/// What reading the clipboard leads to: text that is there and not empty is delivered,
/// anything else is passed over in silence.
pub open spec fn delivery(text: Option<Seq<char>>) -> CaptureActionView {
    match text {
        Some(t) => if t.len() > 0 {
            CaptureActionView::Deliver { text: t }
        } else {
            CaptureActionView::Rest
        },
        None => CaptureActionView::Rest,
    }
}

/// The state that follows `state` on `event`, and the action that goes with it. An
/// event that does not belong to the state changes nothing.
pub open spec fn capture_next(state: CaptureState, event: CaptureEventView) -> (
    CaptureState,
    CaptureActionView,
) {
    match (state, event) {
        (CaptureState::Idle, CaptureEventView::Triggered) => (
            CaptureState::Copying,
            CaptureActionView::IssueCopy,
        ),
        (CaptureState::Copying, CaptureEventView::CopyIssued) => (
            CaptureState::Settling,
            CaptureActionView::Wait { millis: SETTLE_DELAY_MILLIS },
        ),
        (CaptureState::Settling, CaptureEventView::DelayElapsed) => (
            CaptureState::Reading,
            CaptureActionView::ReadClipboard,
        ),
        (CaptureState::Reading, CaptureEventView::ClipboardRead { text }) => (
            CaptureState::Idle,
            delivery(text),
        ),
        _ => (state, CaptureActionView::Rest),
    }
}

/// Takes one event of a run of the pipeline and says what to do next.
pub fn capture_step(state: CaptureState, event: CaptureEvent) -> (r: (CaptureState, CaptureAction))
    ensures
        (r.0, r.1@) == capture_next(state, event@),
{
    match state {
        CaptureState::Idle => match event {
            CaptureEvent::Triggered => (CaptureState::Copying, CaptureAction::IssueCopy),
            _ => (state, CaptureAction::Rest),
        },
        CaptureState::Copying => match event {
            CaptureEvent::CopyIssued => (
                CaptureState::Settling,
                CaptureAction::Wait { millis: SETTLE_DELAY_MILLIS },
            ),
            _ => (state, CaptureAction::Rest),
        },
        CaptureState::Settling => match event {
            CaptureEvent::DelayElapsed => (CaptureState::Reading, CaptureAction::ReadClipboard),
            _ => (state, CaptureAction::Rest),
        },
        CaptureState::Reading => match event {
            CaptureEvent::ClipboardRead { text } => match text {
                Some(t) => {
                    if t.as_str().is_empty() {
                        (CaptureState::Idle, CaptureAction::Rest)
                    } else {
                        (CaptureState::Idle, CaptureAction::Deliver { text: t })
                    }
                },
                None => (CaptureState::Idle, CaptureAction::Rest),
            },
            _ => (state, CaptureAction::Rest),
        },
    }
}

/// A text is delivered only at the end of a full run: the step that delivers it starts
/// in the reading state, which is entered only from settling, which is entered only from
/// copying, which is entered only by the trigger.
pub proof fn lemma_delivery_ends_a_full_run(state: CaptureState, event: CaptureEventView)
    ensures
        capture_next(state, event).1 is Deliver ==> state is Reading,
        capture_next(state, event).1 is ReadClipboard ==> state is Settling,
        capture_next(state, event).1 is Wait ==> state is Copying
            && capture_next(state, event).1->millis == SETTLE_DELAY_MILLIS,
        capture_next(state, event).1 is IssueCopy ==> state is Idle,
        capture_next(state, event).0 is Reading && !(state is Reading) ==> state is Settling,
        capture_next(state, event).0 is Settling && !(state is Settling) ==> state is Copying,
        capture_next(state, event).0 is Copying && !(state is Copying) ==> state is Idle,
{
}

} // verus!
