//! The dialogue that asks the user for the accessibility permission that the
//! key listener needs: the decisions between the system checks and the alert.
use vstd::prelude::*;

verus! {

/// Where the dialogue stands.
#[derive(PartialEq, Eq, Structural, Clone, Copy, Debug)]
pub enum AccessPhase {
    /// Nothing asked yet: the permission is checked without a prompt.
    Start,
    /// The permission is checked with the system's prompt.
    Prompting,
    /// The alert asking the user to grant the permission is showing.
    Alerting,
    /// The permission is there.
    Done,
}

/// What came back from the outside.
#[derive(PartialEq, Eq, Structural, Clone, Copy, Debug)]
pub enum AccessEvent {
    /// A check of the permission answered whether the process is trusted.
    Trusted(bool),
    /// The alert was closed with the button that answers this number. The
    /// first button, to quit, answers 1000, the second, to go on, 1001, and a
    /// third one would answer 1002; only 1001 and 1002 are handled (1002 by
    /// terminating), so the quit button is a fault of the caller.
    Button(i32),
}

/// What to do next.
#[derive(PartialEq, Eq, Structural, Clone, Copy, Debug)]
pub enum AccessAction {
    /// The permission was there from the start: carry on.
    Proceed,
    /// Check the permission again, with the system's prompt.
    CheckWithPrompt,
    /// Show the alert that asks for the permission.
    ShowAlert,
    /// Terminate the application (on the answer 1002); should that return,
    /// check again with the prompt.
    Terminate,
    /// The permission was granted meanwhile: start the application anew.
    Relaunch,
}

/// Whether `event` is one that can come in `phase`: the answer of a check
/// while checking, a known button of the alert while it shows.
pub open spec fn is_expected_event(phase: AccessPhase, event: AccessEvent) -> bool {
    match phase {
        AccessPhase::Start | AccessPhase::Prompting => event is Trusted,
        AccessPhase::Alerting => event == AccessEvent::Button(1001) || event == AccessEvent::Button(
            1002,
        ),
        AccessPhase::Done => false,
    }
}

/// The next phase and the action for an expected event.
pub open spec fn access_transition(phase: AccessPhase, event: AccessEvent) -> (
    AccessPhase,
    AccessAction,
) {
    match (phase, event) {
        (AccessPhase::Start, AccessEvent::Trusted(true)) => (AccessPhase::Done, AccessAction::Proceed),
        (AccessPhase::Start, AccessEvent::Trusted(false)) => (
            AccessPhase::Prompting,
            AccessAction::CheckWithPrompt,
        ),
        (AccessPhase::Prompting, AccessEvent::Trusted(true)) => (
            AccessPhase::Done,
            AccessAction::Relaunch,
        ),
        (AccessPhase::Prompting, AccessEvent::Trusted(false)) => (
            AccessPhase::Alerting,
            AccessAction::ShowAlert,
        ),
        (_, AccessEvent::Button(1001)) => (AccessPhase::Prompting, AccessAction::CheckWithPrompt),
        _ => (AccessPhase::Prompting, AccessAction::Terminate),
    }
}

/// One step of the dialogue: from the phase and what came back, the next phase
/// and what to do. Any other button of the alert is a fault of the caller.
pub fn access_step(phase: AccessPhase, event: AccessEvent) -> (r: (AccessPhase, AccessAction))
    requires
        is_expected_event(phase, event),
    ensures
        r == access_transition(phase, event),
{
    match phase {
        AccessPhase::Start => match event {
            AccessEvent::Trusted(true) => (AccessPhase::Done, AccessAction::Proceed),
            _ => (AccessPhase::Prompting, AccessAction::CheckWithPrompt),
        },
        AccessPhase::Prompting => match event {
            AccessEvent::Trusted(true) => (AccessPhase::Done, AccessAction::Relaunch),
            _ => (AccessPhase::Alerting, AccessAction::ShowAlert),
        },
        _ => match event {
            AccessEvent::Button(1001) => (AccessPhase::Prompting, AccessAction::CheckWithPrompt),
            _ => (AccessPhase::Prompting, AccessAction::Terminate),
        },
    }
}

/// The dialogue ends only on a check that found the permission there, and
/// every phase it does not end in expects a further event.
pub proof fn lemma_done_only_when_trusted(phase: AccessPhase, event: AccessEvent)
    requires
        is_expected_event(phase, event),
    ensures
        access_transition(phase, event).0 == AccessPhase::Done <==> event == AccessEvent::Trusted(
            true,
        ),
        access_transition(phase, event).0 != AccessPhase::Done ==> (is_expected_event(
            access_transition(phase, event).0,
            AccessEvent::Trusted(false),
        ) || is_expected_event(access_transition(phase, event).0, AccessEvent::Button(1001))),
{
}

/// The application is started anew exactly when the permission was missing at
/// first and a later check found it; when it was there at once it carries on.
pub proof fn lemma_relaunch_only_after_prompt(phase: AccessPhase, event: AccessEvent)
    requires
        is_expected_event(phase, event),
    ensures
        access_transition(phase, event).1 == AccessAction::Relaunch <==> (phase
            == AccessPhase::Prompting && event == AccessEvent::Trusted(true)),
        access_transition(phase, event).1 == AccessAction::Proceed <==> (phase == AccessPhase::Start
            && event == AccessEvent::Trusted(true)),
{
}

/// Each answer leads where the dialogue means it to: a refused check shows
/// the alert, the button to go on checks again with the prompt, the answer
/// 1002 terminates, and only a check that finds the permission ends it.
pub proof fn lemma_dialogue_answers(phase: AccessPhase, event: AccessEvent)
    requires
        is_expected_event(phase, event),
    ensures
        event == AccessEvent::Trusted(false) ==> access_transition(phase, event).1 != AccessAction::Relaunch
            && access_transition(phase, event).1 != AccessAction::Proceed,
        phase == AccessPhase::Prompting && event == AccessEvent::Trusted(false) ==> access_transition(
            phase,
            event,
        ) == (AccessPhase::Alerting, AccessAction::ShowAlert),
        phase == AccessPhase::Start && event == AccessEvent::Trusted(false) ==> access_transition(
            phase,
            event,
        ) == (AccessPhase::Prompting, AccessAction::CheckWithPrompt),
        event == AccessEvent::Button(1001) ==> access_transition(phase, event) == (
            AccessPhase::Prompting,
            AccessAction::CheckWithPrompt,
        ),
        event == AccessEvent::Button(1002) ==> access_transition(phase, event) == (
            AccessPhase::Prompting,
            AccessAction::Terminate,
        ),
{
}

} // verus!
