use ngrok::errors::Error;
use ngrok::listener::{canceled_is_ok, forward_begin, forward_finish, ForwardOutcome, ForwardStart};
use ngrok::registry::{Endpoint, ListenerRecord, ListenerRegistry};

fn record(id: &str) -> ListenerRecord {
    ListenerRecord {
        id: id.to_string(),
        forwards_to: "upstream".to_string(),
        metadata: String::new(),
        endpoint: Some(Endpoint {
            url: "https://a.example".to_string(),
            proto: "http".to_string(),
        }),
        labels: Vec::new(),
        session_id: "s_1".to_string(),
        remote_handle: 1,
        join_handle: None,
        forwarding: false,
    }
}

#[test]
fn cancellation_is_swallowed_into_success() {
    assert!(canceled_is_ok(&ForwardOutcome::Done).is_ok());
    assert!(canceled_is_ok(&ForwardOutcome::Canceled).is_ok());
}

#[test]
fn other_failures_surface_as_remote_errors() {
    let r = canceled_is_ok(&ForwardOutcome::Failed {
        message: "connection reset".to_string(),
    });
    match r {
        Err(Error::Remote { message, code }) => {
            assert_eq!(message, "error forwarding: connection reset");
            assert_eq!(code, None);
        }
        _ => panic!("a non-canceled failure must surface"),
    }
}

#[test]
fn forward_begin_rejects_malformed_address_without_state_change() {
    let mut reg = ListenerRegistry::new();
    reg.insert(record("tn_1"));
    let r = forward_begin(&mut reg, &"tn_1".to_string(), "http://[bad");
    assert!(matches!(r, Err(Error::InvalidAddress { .. })));
    // no state change: the listener is still free to start
    let r2 = forward_begin(&mut reg, &"tn_1".to_string(), "localhost:8080");
    assert!(matches!(r2, Ok(ForwardStart::Started { .. })));
}

#[test]
fn forward_begin_reports_missing_listener() {
    let mut reg = ListenerRegistry::new();
    let r = forward_begin(&mut reg, &"tn_missing".to_string(), "localhost:8080");
    assert!(matches!(r, Err(Error::NotFound)));
}

#[test]
fn forward_begin_repairs_bare_targets() {
    let mut reg = ListenerRegistry::new();
    reg.insert(record("tn_1"));
    let r = forward_begin(&mut reg, &"tn_1".to_string(), "localhost:8080");
    match r {
        Ok(ForwardStart::Started { target }) => {
            assert_eq!(target, "tcp://localhost:8080");
        }
        _ => panic!("a bare host:port target must start after repair"),
    }
}

#[test]
fn forwarding_is_serialized_per_listener() {
    let mut reg = ListenerRegistry::new();
    reg.insert(record("tn_1"));
    let id = "tn_1".to_string();
    let first = forward_begin(&mut reg, &id, "localhost:8080");
    assert!(matches!(first, Ok(ForwardStart::Started { .. })));
    // a second request on the same id does not run until the first ends
    let second = forward_begin(&mut reg, &id, "localhost:9090");
    assert!(matches!(second, Ok(ForwardStart::Busy)));
    assert!(forward_finish(&mut reg, &id, &ForwardOutcome::Done).is_ok());
    let third = forward_begin(&mut reg, &id, "localhost:9090");
    assert!(matches!(third, Ok(ForwardStart::Started { .. })));
}

#[test]
fn different_listeners_are_independent() {
    let mut reg = ListenerRegistry::new();
    reg.insert(record("tn_1"));
    reg.insert(record("tn_2"));
    let a = forward_begin(&mut reg, &"tn_1".to_string(), "localhost:8080");
    assert!(matches!(a, Ok(ForwardStart::Started { .. })));
    let b = forward_begin(&mut reg, &"tn_2".to_string(), "localhost:9090");
    assert!(matches!(b, Ok(ForwardStart::Started { .. })));
}

#[test]
fn finish_after_close_still_classifies() {
    let mut reg = ListenerRegistry::new();
    reg.insert(record("tn_1"));
    let id = "tn_1".to_string();
    assert!(matches!(
        forward_begin(&mut reg, &id, "localhost:8080"),
        Ok(ForwardStart::Started { .. })
    ));
    // the listener is closed mid-flight; the record is gone
    reg.remove(&id);
    // the loop ends with the cancellation condition: still a success
    assert!(forward_finish(&mut reg, &id, &ForwardOutcome::Canceled).is_ok());
}
