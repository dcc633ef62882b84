//! The session orchestrator: locate, encode and transmit exactly one payload,
//! then always attempt a disconnect on the way out. The orchestration is a
//! small state machine; an outer driver performs the BLE work and feeds each
//! result back as an event.
use vstd::prelude::*;

use crate::locator::DiscoveryError;

verus! {

/// Which payload the caller supplied. Exactly one must be present.
#[derive(Clone, Copy, Debug, PartialEq, Eq, Structural)]
pub enum Intent {
    /// Free-text message, sent as a notification frame.
    Message,
    /// Binary image, sent hex-encoded with its checksum.
    Binary,
    /// Remote syscall invocation, wire-identical to a message.
    Syscall,
}

/// Everything a session can fail with.
#[derive(Clone, Copy, Debug, PartialEq, Eq, Structural)]
pub enum SessionError {
    /// None of message, binary and syscall was supplied.
    Usage,
    /// The discovery phase failed before any transmission.
    Discovery(DiscoveryError),
    /// The binary payload could not be loaded.
    FileRead,
    /// A chunk write was rejected by the link; the rest of the frame is
    /// abandoned.
    WriteFailure,
    /// The final disconnect failed and there was no earlier error to report.
    DisconnectFailure,
}

/// The orchestrator's states. `Disconnected` is terminal: success and failure
/// both end there.
#[derive(Clone, Copy, Debug, PartialEq, Eq, Structural)]
pub enum SessionState {
    Idle,
    Locating,
    Connected,
    Transmitting,
    Disconnected,
}

/// What the driver reports back to the orchestrator.
#[derive(Clone, Copy, Debug, PartialEq, Eq, Structural)]
pub enum SessionEvent {
    /// The session begins.
    Begin,
    /// Discovery bound a device and the writable characteristic.
    Located,
    /// Discovery failed; nothing was connected.
    LocateFailed(DiscoveryError),
    /// The caller supplied this payload kind.
    IntentSelected(Intent),
    /// The caller supplied no payload at all.
    NoIntent,
    /// The frame was transmitted (`true`) or a write was rejected (`false`).
    TransmitFinished(bool),
}

/// What the orchestrator asks the driver to do next. A `Disconnect` carries
/// the error to report after the disconnect attempt, if any.
#[derive(Clone, Copy, Debug, PartialEq, Eq, Structural)]
pub enum SessionAction {
    /// Run the discovery phase.
    StartLocate,
    /// Ask the caller which payload was supplied.
    SelectIntent,
    /// Encode the payload of this kind and send the chunks.
    Transmit(Intent),
    /// Attempt to disconnect, then report the carried error, if any.
    Disconnect(Option<SessionError>),
    /// Report this error; no device was connected, so nothing to disconnect.
    Report(SessionError),
    /// The event does not apply in this state; nothing changes.
    Nothing,
}

/// The transition table: which state and action follow each state and event.
pub open spec fn spec_session_step(state: SessionState, event: SessionEvent) -> (SessionState,
    SessionAction) {
    match (state, event) {
        (SessionState::Idle, SessionEvent::Begin) => (
            SessionState::Locating,
            SessionAction::StartLocate,
        ),
        (SessionState::Locating, SessionEvent::Located) => (
            SessionState::Connected,
            SessionAction::SelectIntent,
        ),
        (SessionState::Locating, SessionEvent::LocateFailed(e)) => (
            SessionState::Disconnected,
            SessionAction::Report(SessionError::Discovery(e)),
        ),
        (SessionState::Connected, SessionEvent::IntentSelected(i)) => (
            SessionState::Transmitting,
            SessionAction::Transmit(i),
        ),
        (SessionState::Connected, SessionEvent::NoIntent) => (
            SessionState::Disconnected,
            SessionAction::Disconnect(Some(SessionError::Usage)),
        ),
        (SessionState::Transmitting, SessionEvent::TransmitFinished(true)) => (
            SessionState::Disconnected,
            SessionAction::Disconnect(None),
        ),
        (SessionState::Transmitting, SessionEvent::TransmitFinished(false)) => (
            SessionState::Disconnected,
            SessionAction::Disconnect(Some(SessionError::WriteFailure)),
        ),
        _ => (state, SessionAction::Nothing),
    }
}

/// Advances the session by one event.
pub fn session_step(state: SessionState, event: SessionEvent) -> (r: (SessionState, SessionAction))
    ensures
        r == spec_session_step(state, event),
{
    match (state, event) {
        (SessionState::Idle, SessionEvent::Begin) => (
            SessionState::Locating,
            SessionAction::StartLocate,
        ),
        (SessionState::Locating, SessionEvent::Located) => (
            SessionState::Connected,
            SessionAction::SelectIntent,
        ),
        (SessionState::Locating, SessionEvent::LocateFailed(e)) => (
            SessionState::Disconnected,
            SessionAction::Report(SessionError::Discovery(e)),
        ),
        (SessionState::Connected, SessionEvent::IntentSelected(i)) => (
            SessionState::Transmitting,
            SessionAction::Transmit(i),
        ),
        (SessionState::Connected, SessionEvent::NoIntent) => (
            SessionState::Disconnected,
            SessionAction::Disconnect(Some(SessionError::Usage)),
        ),
        (SessionState::Transmitting, SessionEvent::TransmitFinished(ok)) => {
            if ok {
                (SessionState::Disconnected, SessionAction::Disconnect(None))
            } else {
                (
                    SessionState::Disconnected,
                    SessionAction::Disconnect(Some(SessionError::WriteFailure)),
                )
            }
        },
        _ => (state, SessionAction::Nothing),
    }
}

/// Picks the payload kind from what the caller supplied, in the fixed order
/// of precedence: message, then binary, then syscall. Supplying none is the
/// usage error.
pub fn select_intent(has_message: bool, has_binary: bool, has_syscall: bool) -> (r: Option<Intent>)
    ensures
        r == (if has_message {
            Some(Intent::Message)
        } else if has_binary {
            Some(Intent::Binary)
        } else if has_syscall {
            Some(Intent::Syscall)
        } else {
            Option::<Intent>::None
        }),
{
    if has_message {
        Some(Intent::Message)
    } else if has_binary {
        Some(Intent::Binary)
    } else if has_syscall {
        Some(Intent::Syscall)
    } else {
        None
    }
}

/// Combines what transmission came to with the outcome of the final
/// disconnect attempt. An error on the way in is always the one reported: a
/// disconnect failure is surfaced only when everything before it succeeded.
pub fn session_verdict(pending: Option<SessionError>, disconnect_ok: bool) -> (r: Result<
    (),
    SessionError,
>)
    ensures
        pending matches Some(e) ==> r == Result::<(), SessionError>::Err(e),
        pending is None && !disconnect_ok ==> r == Result::<(), SessionError>::Err(
            SessionError::DisconnectFailure,
        ),
        pending is None && disconnect_ok ==> r == Result::<(), SessionError>::Ok(()),
{
    match pending {
        Some(e) => Err(e),
        None => {
            if disconnect_ok {
                Ok(())
            } else {
                Err(SessionError::DisconnectFailure)
            }
        },
    }
}

} // verus!
