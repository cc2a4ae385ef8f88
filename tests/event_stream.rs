use shroombox::event_stream::{RETRY_BASE_MS, RETRY_MAX_MS};
use shroombox::{BoundedLogBuffer, ConnectionState, ReconnectingEventStream, StreamCommand};

fn open_stream() -> ReconnectingEventStream {
    let mut s = ReconnectingEventStream::new();
    assert_eq!(s.activate(), StreamCommand::Subscribe);
    assert_eq!(s.state(), ConnectionState::Connecting);
    assert_eq!(s.on_open(), StreamCommand::Nothing);
    assert_eq!(s.state(), ConnectionState::Open);
    s
}

#[test]
fn activation_subscribes_once() {
    let mut s = ReconnectingEventStream::new();
    assert_eq!(s.state(), ConnectionState::Closed);
    assert_eq!(s.activate(), StreamCommand::Subscribe);
    assert_eq!(s.activate(), StreamCommand::Nothing);
    s.on_open();
    assert_eq!(s.activate(), StreamCommand::Nothing);
    assert_eq!(s.state(), ConnectionState::Open);
}

#[test]
fn deactivate_while_connecting() {
    let mut s = ReconnectingEventStream::new();
    s.activate();
    assert_eq!(s.deactivate(), StreamCommand::Unsubscribe);
    assert_eq!(s.state(), ConnectionState::Closed);
}

#[test]
fn deactivate_while_open() {
    let mut s = open_stream();
    assert_eq!(s.deactivate(), StreamCommand::Unsubscribe);
    assert_eq!(s.state(), ConnectionState::Closed);
}

#[test]
fn deactivate_while_errored_and_again() {
    let mut s = open_stream();
    assert_eq!(s.on_error(), StreamCommand::UnsubscribeAndRetry { delay_ms: RETRY_BASE_MS });
    assert_eq!(s.state(), ConnectionState::Errored);
    assert_eq!(s.deactivate(), StreamCommand::Nothing);
    assert_eq!(s.state(), ConnectionState::Closed);
    assert_eq!(s.deactivate(), StreamCommand::Nothing);
    assert_eq!(s.state(), ConnectionState::Closed);
    // a retry timer that fires after teardown does nothing
    assert_eq!(s.on_retry_due(), StreamCommand::Nothing);
    assert_eq!(s.state(), ConnectionState::Closed);
}

#[test]
fn backoff_doubles_up_to_cap_and_resets_on_open() {
    let mut s = ReconnectingEventStream::new();
    s.activate();
    let mut expected = RETRY_BASE_MS;
    for _ in 0..10 {
        assert_eq!(s.on_error(), StreamCommand::UnsubscribeAndRetry { delay_ms: expected });
        expected = if expected >= RETRY_MAX_MS / 2 { RETRY_MAX_MS } else { expected * 2 };
        assert_eq!(s.on_retry_due(), StreamCommand::Subscribe);
    }
    assert_eq!(s.retry_delay_ms(), RETRY_MAX_MS);
    s.on_open();
    assert_eq!(s.retry_delay_ms(), RETRY_BASE_MS);
}

#[test]
fn first_delays_are_exact() {
    let mut s = open_stream();
    assert_eq!(s.on_error(), StreamCommand::UnsubscribeAndRetry { delay_ms: 500 });
    s.on_retry_due();
    assert_eq!(s.on_error(), StreamCommand::UnsubscribeAndRetry { delay_ms: 1000 });
    s.on_retry_due();
    assert_eq!(s.on_error(), StreamCommand::UnsubscribeAndRetry { delay_ms: 2000 });
}

#[test]
fn messages_only_append_while_open() {
    let mut buf = BoundedLogBuffer::new(10);
    let mut s = ReconnectingEventStream::new();
    assert!(!s.on_message(&mut buf, "early".to_string()));
    s.activate();
    assert!(!s.on_message(&mut buf, "connecting".to_string()));
    s.on_open();
    assert!(s.on_message(&mut buf, "one".to_string()));
    assert_eq!(buf.snapshot(), vec!["one".to_string()]);
}

#[test]
fn reconnect_resumes_same_buffer() {
    let mut buf = BoundedLogBuffer::new(10);
    let mut s = open_stream();
    s.on_message(&mut buf, "a".to_string());
    s.on_message(&mut buf, "b".to_string());
    s.on_error();
    assert!(!s.on_message(&mut buf, "lost".to_string()));
    assert_eq!(s.on_retry_due(), StreamCommand::Subscribe);
    s.on_open();
    s.on_message(&mut buf, "c".to_string());
    assert_eq!(buf.snapshot(), vec!["a".to_string(), "b".to_string(), "c".to_string()]);
}

#[test]
fn errors_outside_live_states_are_ignored() {
    let mut s = ReconnectingEventStream::new();
    assert_eq!(s.on_error(), StreamCommand::Nothing);
    assert_eq!(s.state(), ConnectionState::Closed);
    assert_eq!(s.on_open(), StreamCommand::Nothing);
    assert_eq!(s.state(), ConnectionState::Closed);
}
