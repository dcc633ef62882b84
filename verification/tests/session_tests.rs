use mwatch_spoofer::locator::DiscoveryError;
use mwatch_spoofer::session::{
    select_intent, session_step, session_verdict, Intent, SessionAction, SessionError,
    SessionEvent, SessionState,
};

#[test]
fn intent_precedence_message_binary_syscall() {
    assert_eq!(select_intent(true, true, true), Some(Intent::Message));
    assert_eq!(select_intent(false, true, true), Some(Intent::Binary));
    assert_eq!(select_intent(false, false, true), Some(Intent::Syscall));
    assert_eq!(select_intent(false, false, false), None);
}

#[test]
fn successful_session_walk() {
    let (s, a) = session_step(SessionState::Idle, SessionEvent::Begin);
    assert_eq!((s, a), (SessionState::Locating, SessionAction::StartLocate));
    let (s, a) = session_step(s, SessionEvent::Located);
    assert_eq!((s, a), (SessionState::Connected, SessionAction::SelectIntent));
    let (s, a) = session_step(s, SessionEvent::IntentSelected(Intent::Message));
    assert_eq!((s, a), (SessionState::Transmitting, SessionAction::Transmit(Intent::Message)));
    let (s, a) = session_step(s, SessionEvent::TransmitFinished(true));
    assert_eq!((s, a), (SessionState::Disconnected, SessionAction::Disconnect(None)));
}

#[test]
fn locate_failure_ends_the_session_without_disconnect() {
    let (s, a) = session_step(
        SessionState::Locating,
        SessionEvent::LocateFailed(DiscoveryError::NoDeviceFound),
    );
    assert_eq!(s, SessionState::Disconnected);
    assert_eq!(a, SessionAction::Report(SessionError::Discovery(DiscoveryError::NoDeviceFound)));
}

#[test]
fn write_failure_still_disconnects() {
    let (s, a) = session_step(SessionState::Transmitting, SessionEvent::TransmitFinished(false));
    assert_eq!(s, SessionState::Disconnected);
    assert_eq!(a, SessionAction::Disconnect(Some(SessionError::WriteFailure)));
}

#[test]
fn missing_intent_is_a_usage_error_and_disconnects() {
    let (s, a) = session_step(SessionState::Connected, SessionEvent::NoIntent);
    assert_eq!(s, SessionState::Disconnected);
    assert_eq!(a, SessionAction::Disconnect(Some(SessionError::Usage)));
}

#[test]
fn stray_events_change_nothing() {
    let (s, a) = session_step(SessionState::Idle, SessionEvent::TransmitFinished(true));
    assert_eq!((s, a), (SessionState::Idle, SessionAction::Nothing));
    let (s, a) = session_step(SessionState::Disconnected, SessionEvent::Begin);
    assert_eq!((s, a), (SessionState::Disconnected, SessionAction::Nothing));
}

#[test]
fn disconnect_failure_never_masks_an_earlier_error() {
    assert_eq!(
        session_verdict(Some(SessionError::WriteFailure), false),
        Err(SessionError::WriteFailure)
    );
    assert_eq!(
        session_verdict(Some(SessionError::FileRead), true),
        Err(SessionError::FileRead)
    );
    assert_eq!(session_verdict(Some(SessionError::Usage), false), Err(SessionError::Usage));
    assert_eq!(session_verdict(None, false), Err(SessionError::DisconnectFailure));
    assert_eq!(session_verdict(None, true), Ok(()));
}
