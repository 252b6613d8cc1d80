//! The one global shortcut that is live at a time, and how it is replaced.
//!
//! The operating system's hotkey facility is driven by the caller. The registry decides:
//! it is handed each thing that happens as an event and answers with the next action. A
//! replacement runs from the request to its outcome, and the caller keeps exclusive
//! access to the registry for that long. The old shortcut is released first, and the new
//! one is bound whether or not the release worked; the new shortcut becomes the active one
//! only when the operating system has accepted it.

use crate::shortcut::{parse_result, parse_shortcut, ParseError, ParseFailure, ShortcutSpec};
use vstd::prelude::*;
use vstd::string::StringExecFns;

verus! {

/// Where a replacement stands.
#[derive(Clone, Copy, Debug, PartialEq, Eq, Structural)]
pub enum RegistryPhase {
    /// No replacement is under way.
    Idle,
    /// The old shortcut is being released; `next` is to follow it.
    Releasing { next: ShortcutSpec },
    /// `next` is being bound.
    Binding { next: ShortcutSpec },
}

/// Why a shortcut could not be put in place.
#[derive(Clone, Debug, PartialEq, Eq)]
pub enum ShortcutError {
    /// The text is not a shortcut.
    Parse { error: ParseError },
    /// The operating system refused to bind the shortcut.
    Registration { detail: String },
}

/// What happened since the last step.
#[derive(Debug)]
pub enum RegistryEvent {
    /// A new shortcut was asked for, written as text.
    Requested { text: String },
    /// The operating system was asked to release the old shortcut, and did or did not.
    Released { released: bool },
    /// The operating system was asked to bind the new shortcut; `failure` is its refusal,
    /// if it refused.
    Bound { failure: Option<String> },
}

/// What the caller is to do after a step.
#[derive(Debug)]
pub enum RegistryAction {
    /// Ask the operating system to release `shortcut`, and report how that went.
    Release { shortcut: ShortcutSpec },
    /// Ask the operating system to bind `shortcut` to the capture trigger, and report how
    /// that went.
    Bind { shortcut: ShortcutSpec },
    /// The replacement is done: the requested shortcut is the active one.
    Accept,
    /// The replacement is over and failed.
    Reject { error: ShortcutError },
    /// The event does not belong here; there is nothing to do.
    Ignore,
}

/// The mathematical content of a [`ShortcutError`].
pub enum ShortcutFailure {
    Parse { failure: ParseFailure },
    Registration { detail: Seq<char> },
}

/// The mathematical content of a [`RegistryEvent`].
pub enum RegistryEventView {
    Requested { text: Seq<char> },
    Released { released: bool },
    Bound { failure: Option<Seq<char>> },
}

/// The mathematical content of a [`RegistryAction`].
pub enum RegistryActionView {
    Release { shortcut: ShortcutSpec },
    Bind { shortcut: ShortcutSpec },
    Accept,
    Reject { failure: ShortcutFailure },
    Ignore,
}

impl View for ShortcutError {
    type V = ShortcutFailure;

    open spec fn view(&self) -> ShortcutFailure {
        match self {
            ShortcutError::Parse { error } => ShortcutFailure::Parse { failure: error@ },
            ShortcutError::Registration { detail } => ShortcutFailure::Registration {
                detail: detail@,
            },
        }
    }
}

impl View for RegistryEvent {
    type V = RegistryEventView;

    open spec fn view(&self) -> RegistryEventView {
        match self {
            RegistryEvent::Requested { text } => RegistryEventView::Requested { text: text@ },
            RegistryEvent::Released { released } => RegistryEventView::Released {
                released: *released,
            },
            RegistryEvent::Bound { failure } => RegistryEventView::Bound {
                failure: match failure {
                    Some(detail) => Some(detail@),
                    None => None,
                },
            },
        }
    }
}

impl View for RegistryAction {
    type V = RegistryActionView;

    open spec fn view(&self) -> RegistryActionView {
        match self {
            RegistryAction::Release { shortcut } => RegistryActionView::Release {
                shortcut: *shortcut,
            },
            RegistryAction::Bind { shortcut } => RegistryActionView::Bind { shortcut: *shortcut },
            RegistryAction::Accept => RegistryActionView::Accept,
            RegistryAction::Reject { error } => RegistryActionView::Reject { failure: error@ },
            RegistryAction::Ignore => RegistryActionView::Ignore,
        }
    }
}

/// The state of a [`ShortcutRegistry`], as its contracts see it.
pub struct RegistryState {
    /// The shortcut that is taken to be live.
    pub active: Option<ShortcutSpec>,
    pub phase: RegistryPhase,
}

/// The owner of the active shortcut. The slot can be read, and changes only through
/// [`ShortcutRegistry::step`].
pub struct ShortcutRegistry {
    active: Option<ShortcutSpec>,
    phase: RegistryPhase,
}

impl View for ShortcutRegistry {
    type V = RegistryState;

    closed spec fn view(&self) -> RegistryState {
        RegistryState { active: self.active, phase: self.phase }
    }
}

pub const REGISTRATION_FAILURE: &'static str = "Failed to register shortcut: ";

/// The message of a failure, as shown to the user.
pub open spec fn shortcut_failure_message(failure: ShortcutFailure) -> Seq<char> {
    match failure {
        ShortcutFailure::Parse { failure } => crate::shortcut::failure_message(failure),
        ShortcutFailure::Registration { detail } => REGISTRATION_FAILURE@ + detail,
    }
}

/// The state that follows `state` on `event`, and the action that goes with it.
///
/// A request is taken up only when no replacement is under way. A text that is not a
/// shortcut is rejected and changes nothing. Otherwise the active shortcut, if there is
/// one, is released first. Whatever the release came to, the new shortcut is bound next.
/// When the operating system accepts it, it becomes the active shortcut; when it is
/// refused, the active shortcut stays what it was.
pub open spec fn next_state(state: RegistryState, event: RegistryEventView) -> (
    RegistryState,
    RegistryActionView,
) {
    match (state.phase, event) {
        (RegistryPhase::Idle, RegistryEventView::Requested { text }) => match parse_result(text) {
            Err(failure) => (
                state,
                RegistryActionView::Reject { failure: ShortcutFailure::Parse { failure } },
            ),
            Ok(next) => match state.active {
                Some(old) => (
                    RegistryState { phase: RegistryPhase::Releasing { next }, ..state },
                    RegistryActionView::Release { shortcut: old },
                ),
                None => (
                    RegistryState { phase: RegistryPhase::Binding { next }, ..state },
                    RegistryActionView::Bind { shortcut: next },
                ),
            },
        },
        (RegistryPhase::Releasing { next }, RegistryEventView::Released { released }) => (
            RegistryState { phase: RegistryPhase::Binding { next }, ..state },
            RegistryActionView::Bind { shortcut: next },
        ),
        (RegistryPhase::Binding { next }, RegistryEventView::Bound { failure }) => match failure {
            None => (
                RegistryState { active: Some(next), phase: RegistryPhase::Idle },
                RegistryActionView::Accept,
            ),
            Some(detail) => (
                RegistryState { phase: RegistryPhase::Idle, ..state },
                RegistryActionView::Reject { failure: ShortcutFailure::Registration { detail } },
            ),
        },
        _ => (state, RegistryActionView::Ignore),
    }
}

impl ShortcutError {
    /// The message of the error, as shown to the user.
    pub fn message(&self) -> (r: String)
        ensures
            r@ == shortcut_failure_message(self@),
    {
        match self {
            ShortcutError::Parse { error } => error.message(),
            ShortcutError::Registration { detail } => {
                let mut out = REGISTRATION_FAILURE.to_owned();
                out.append(detail.as_str());
                out
            },
        }
    }
}

impl ShortcutRegistry {
    /// A registry with no active shortcut, as at startup.
    pub fn new() -> (r: Self)
        ensures
            r@ == (RegistryState { active: None, phase: RegistryPhase::Idle }),
    {
        ShortcutRegistry { active: None, phase: RegistryPhase::Idle }
    }

    /// The active shortcut.
    pub fn active(&self) -> (r: Option<ShortcutSpec>)
        ensures
            r == self@.active,
    {
        self.active
    }

    /// Where the replacement under way stands.
    pub fn phase(&self) -> (r: RegistryPhase)
        ensures
            r == self@.phase,
    {
        self.phase
    }

    /// Takes one event and says what to do next.
    pub fn step(&mut self, event: RegistryEvent) -> (action: RegistryAction)
        ensures
            (final(self)@, action@) == next_state(old(self)@, event@),
    {
        match self.phase {
            RegistryPhase::Idle => match event {
                RegistryEvent::Requested { text } => match parse_shortcut(text.as_str()) {
                    Err(error) => RegistryAction::Reject {
                        error: ShortcutError::Parse { error },
                    },
                    Ok(next) => match self.active {
                        Some(old) => {
                            self.phase = RegistryPhase::Releasing { next };
                            RegistryAction::Release { shortcut: old }
                        },
                        None => {
                            self.phase = RegistryPhase::Binding { next };
                            RegistryAction::Bind { shortcut: next }
                        },
                    },
                },
                _ => RegistryAction::Ignore,
            },
            RegistryPhase::Releasing { next } => match event {
                RegistryEvent::Released { released } => {
                    self.phase = RegistryPhase::Binding { next };
                    RegistryAction::Bind { shortcut: next }
                },
                _ => RegistryAction::Ignore,
            },
            RegistryPhase::Binding { next } => match event {
                RegistryEvent::Bound { failure } => match failure {
                    None => {
                        self.active = Some(next);
                        self.phase = RegistryPhase::Idle;
                        RegistryAction::Accept
                    },
                    Some(detail) => {
                        self.phase = RegistryPhase::Idle;
                        RegistryAction::Reject { error: ShortcutError::Registration { detail } }
                    },
                },
                _ => RegistryAction::Ignore,
            },
        }
    }
}

/// The shortcuts that the operating system holds after it has answered with `event`,
/// where it held `live` before: a release that worked takes the active shortcut away, a
/// binding that was accepted adds the new one, and nothing else changes what is held.
pub open spec fn live_after(
    live: Set<ShortcutSpec>,
    state: RegistryState,
    event: RegistryEventView,
) -> Set<ShortcutSpec> {
    match (state.phase, event) {
        (RegistryPhase::Releasing { next }, RegistryEventView::Released { released }) => {
            match state.active {
                Some(old) => if released {
                    live.remove(old)
                } else {
                    live
                },
                None => live,
            }
        },
        (RegistryPhase::Binding { next }, RegistryEventView::Bound { failure }) => {
            if failure is None {
                live.insert(next)
            } else {
                live
            }
        },
        _ => live,
    }
}

/// The registry is at rest and agrees with the operating system: what is held there is
/// the active shortcut and nothing else.
pub open spec fn at_rest(state: RegistryState, live: Set<ShortcutSpec>) -> bool {
    &&& state.phase is Idle
    &&& live == match state.active {
        Some(shortcut) => set![shortcut],
        None => Set::empty(),
    }
}

/// One replacement from the request to its outcome: the registry and the operating
/// system after the request for `text`, the answer `released` to a release (if one was
/// asked for) and the answer `failure` to the binding (if it came to one).
pub open spec fn after_replacement(
    state: RegistryState,
    live: Set<ShortcutSpec>,
    text: Seq<char>,
    released: bool,
    failure: Option<Seq<char>>,
) -> (RegistryState, Set<ShortcutSpec>) {
    let requested = next_state(state, RegistryEventView::Requested { text }).0;
    let release = RegistryEventView::Released { released };
    let (bound_next, held) = if requested.phase is Releasing {
        (next_state(requested, release).0, live_after(live, requested, release))
    } else {
        (requested, live)
    };
    let binding = RegistryEventView::Bound { failure };
    if bound_next.phase is Binding {
        (next_state(bound_next, binding).0, live_after(held, bound_next, binding))
    } else {
        (bound_next, held)
    }
}

/// A text that is not a shortcut leaves the registry as it was, whatever its state, and
/// a registry at rest rejects it with the failure of the parser.
pub proof fn lemma_malformed_request_changes_nothing(state: RegistryState, text: Seq<char>)
    requires
        parse_result(text) is Err,
    ensures
        next_state(state, RegistryEventView::Requested { text }).0 == state,
        state.phase is Idle ==> next_state(state, RegistryEventView::Requested { text }).1
            == (RegistryActionView::Reject {
            failure: ShortcutFailure::Parse { failure: parse_result(text)->Err_0 },
        }),
{
}

/// A binding that the operating system refuses leaves the active shortcut as it was.
pub proof fn lemma_refused_binding_keeps_active(
    state: RegistryState,
    live: Set<ShortcutSpec>,
    text: Seq<char>,
    released: bool,
    detail: Seq<char>,
)
    requires
        state.phase is Idle,
    ensures
        after_replacement(state, live, text, released, Some(detail)).0 == state,
{
}

/// A replacement in which the operating system does as it is asked leaves exactly one
/// shortcut held there, the requested one, and the registry agrees with it.
pub proof fn lemma_replacement_keeps_one_binding(
    state: RegistryState,
    live: Set<ShortcutSpec>,
    text: Seq<char>,
)
    requires
        at_rest(state, live),
        parse_result(text) is Ok,
    ensures
        ({
            let (after, held) = after_replacement(state, live, text, true, None);
            &&& at_rest(after, held)
            &&& after.active == Some(parse_result(text)->Ok_0)
            &&& held == set![parse_result(text)->Ok_0]
            &&& held.len() == 1
        }),
{
    let next = parse_result(text)->Ok_0;
    let (after, held) = after_replacement(state, live, text, true, None);
    match state.active {
        Some(old) => {
            assert(set![old].remove(old).insert(next) == set![next]);
        },
        None => {
            assert(Set::<ShortcutSpec>::empty().insert(next) == set![next]);
        },
    }
    assert(held == set![next]);
}

/// Two replacements, one right after the other, leave exactly one shortcut held by the
/// operating system: the one asked for last. The registry agrees with it.
pub proof fn lemma_two_replacements_keep_one_binding(
    state: RegistryState,
    live: Set<ShortcutSpec>,
    first: Seq<char>,
    second: Seq<char>,
)
    requires
        at_rest(state, live),
        parse_result(first) is Ok,
        parse_result(second) is Ok,
    ensures
        ({
            let (between, held_between) = after_replacement(state, live, first, true, None);
            let (after, held) = after_replacement(between, held_between, second, true, None);
            &&& at_rest(after, held)
            &&& after.active == Some(parse_result(second)->Ok_0)
            &&& held == set![parse_result(second)->Ok_0]
            &&& held.len() == 1
        }),
{
    lemma_replacement_keeps_one_binding(state, live, first);
    let (between, held_between) = after_replacement(state, live, first, true, None);
    lemma_replacement_keeps_one_binding(between, held_between, second);
}

} // verus!
