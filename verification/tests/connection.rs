use broker_server::connection::{
    ConnectionAction, ConnectionError, ConnectionEvent, ConnectionState, Termination,
};

fn serving() -> ConnectionState {
    let (state, action) = ConnectionState::new().on_event(ConnectionEvent::Established);
    assert_eq!(action, ConnectionAction::AcceptStreams);
    state
}

fn terminations() -> Vec<Termination> {
    vec![
        Termination::VersionMismatch,
        Termination::TransportError,
        Termination::ConnectionClosed,
        Termination::ApplicationClosed,
        Termination::Reset,
        Termination::TimedOut,
        Termination::LocallyClosed,
    ]
}

fn events() -> Vec<ConnectionEvent> {
    let mut events =
        vec![ConnectionEvent::Established, ConnectionEvent::StreamOpened, ConnectionEvent::StreamsEnded];
    for reason in terminations() {
        events.push(ConnectionEvent::HandshakeFailed(reason));
        events.push(ConnectionEvent::StreamFailed(reason));
    }
    events
}

#[test]
fn a_new_connection_is_connecting() {
    assert_eq!(ConnectionState::new(), ConnectionState::Connecting);
    assert!(!ConnectionState::new().is_over());
}

#[test]
fn a_completed_handshake_starts_accepting_streams() {
    let (state, action) = ConnectionState::new().on_event(ConnectionEvent::Established);
    assert_eq!(state, ConnectionState::Serving);
    assert_eq!(action, ConnectionAction::AcceptStreams);
}

#[test]
fn a_failed_handshake_ends_the_connection_with_an_error() {
    for reason in terminations() {
        let (state, action) =
            ConnectionState::new().on_event(ConnectionEvent::HandshakeFailed(reason));
        let error = ConnectionError::HandshakeFailed(reason);
        assert_eq!(state, ConnectionState::Failed(error));
        assert_eq!(action, ConnectionAction::Complete(Err(error)));
        assert!(state.is_over());
    }
}

#[test]
fn every_stream_gets_a_handler_and_the_connection_goes_on() {
    let mut state = serving();
    for _ in 0..100 {
        let (next, action) = state.on_event(ConnectionEvent::StreamOpened);
        assert_eq!(action, ConnectionAction::ServeStream);
        assert_eq!(next, ConnectionState::Serving);
        state = next;
    }
}

#[test]
fn a_close_by_the_peer_application_is_a_clean_end() {
    let (state, action) =
        serving().on_event(ConnectionEvent::StreamFailed(Termination::ApplicationClosed));
    assert_eq!(state, ConnectionState::Closed);
    assert_eq!(action, ConnectionAction::Complete(Ok(())));
    assert!(state.is_over());
}

#[test]
fn the_end_of_streams_is_a_clean_end() {
    let (state, action) = serving().on_event(ConnectionEvent::StreamsEnded);
    assert_eq!(state, ConnectionState::Closed);
    assert_eq!(action, ConnectionAction::Complete(Ok(())));
}

#[test]
fn any_other_termination_is_a_failure() {
    for reason in terminations() {
        if reason == Termination::ApplicationClosed {
            continue;
        }
        let (state, action) = serving().on_event(ConnectionEvent::StreamFailed(reason));
        let error = ConnectionError::Lost(reason);
        assert_eq!(state, ConnectionState::Failed(error));
        assert_eq!(action, ConnectionAction::Complete(Err(error)));
    }
}

#[test]
fn no_stream_is_served_before_the_handshake() {
    let (state, action) = ConnectionState::new().on_event(ConnectionEvent::StreamOpened);
    assert_eq!(state, ConnectionState::Connecting);
    assert_eq!(action, ConnectionAction::Ignore);
}

#[test]
fn a_second_handshake_changes_nothing() {
    let (state, action) = serving().on_event(ConnectionEvent::Established);
    assert_eq!(state, ConnectionState::Serving);
    assert_eq!(action, ConnectionAction::Ignore);
}

#[test]
fn a_connection_that_is_over_stays_over() {
    let over = vec![
        ConnectionState::Closed,
        ConnectionState::Failed(ConnectionError::Lost(Termination::Reset)),
        ConnectionState::Failed(ConnectionError::HandshakeFailed(Termination::TimedOut)),
    ];
    for state in over {
        for event in events() {
            assert_eq!(state.on_event(event), (state, ConnectionAction::Ignore));
        }
    }
}

#[test]
fn the_failure_of_one_connection_leaves_another_untouched() {
    let first = serving();
    let second = serving();
    let (first, _) = first.on_event(ConnectionEvent::StreamFailed(Termination::Reset));
    assert!(first.is_over());
    let (second, action) = second.on_event(ConnectionEvent::StreamOpened);
    assert_eq!(second, ConnectionState::Serving);
    assert_eq!(action, ConnectionAction::ServeStream);
}
