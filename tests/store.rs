use shroombox::{ReconnectingEventStream, SystemStatus, UiStateStore};

#[test]
fn new_store_is_empty() {
    let st = UiStateStore::new(100);
    assert_eq!(st.status(), SystemStatus { running: false, pid: None });
    assert_eq!(SystemStatus::default(), SystemStatus { running: false, pid: None });
    assert!(st.log_snapshot().is_empty());
    assert_eq!(st.revision(), 0);
}

#[test]
fn every_write_bumps_revision() {
    let mut st = UiStateStore::new(2);
    st.set_status(SystemStatus { running: true, pid: Some(1234) });
    assert_eq!(st.revision(), 1);
    assert_eq!(st.status().pid, Some(1234));
    st.register_control("phase".to_string(), "growing".to_string()).unwrap();
    assert_eq!(st.revision(), 2);
    let req = st.submit_action("phase".to_string(), "cake".to_string()).unwrap();
    assert_eq!(st.revision(), 3);
    assert_eq!(st.displayed_value(&"phase".to_string()), Some("cake".to_string()));
    assert!(st.resolve_action(req.ticket, false));
    assert_eq!(st.revision(), 4);
    assert_eq!(st.displayed_value(&"phase".to_string()), Some("growing".to_string()));
    assert!(!st.resolve_action(req.ticket, true));
    assert_eq!(st.revision(), 4);
    assert_eq!(st.confirmed_value(&"phase".to_string()), Some("growing".to_string()));
}

#[test]
fn refused_writes_keep_revision() {
    let mut st = UiStateStore::new(2);
    assert!(st.submit_action("phase".to_string(), "cake".to_string()).is_err());
    assert_eq!(st.revision(), 0);
}

#[test]
fn log_lines_flow_through_open_stream() {
    let mut st = UiStateStore::new(2);
    let mut stream = ReconnectingEventStream::new();
    assert!(!st.deliver_log_line(&stream, "dropped".to_string()));
    assert_eq!(st.revision(), 0);
    stream.activate();
    stream.on_open();
    for l in ["a", "b", "c"] {
        assert!(st.deliver_log_line(&stream, l.to_string()));
    }
    assert_eq!(st.log_snapshot(), vec!["b".to_string(), "c".to_string()]);
    assert_eq!(st.revision(), 3);
}
