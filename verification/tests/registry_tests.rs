use ngrok::errors::Error;
use ngrok::listener::{close_begin, close_url_targets, list_listeners, Listener, RpcOutcome};
use ngrok::listener::{close_finish, join_token};
use ngrok::registry::{Endpoint, ListenerRecord, ListenerRegistry};
use ngrok::socket::{SocketCache, SocketHandle, SocketKind};

fn record(id: &str, url: &str, session: &str) -> ListenerRecord {
    ListenerRecord {
        id: id.to_string(),
        forwards_to: "upstream".to_string(),
        metadata: "meta".to_string(),
        endpoint: Some(Endpoint {
            url: url.to_string(),
            proto: "http".to_string(),
        }),
        labels: Vec::new(),
        session_id: session.to_string(),
        remote_handle: 1,
        join_handle: None,
        forwarding: false,
    }
}

#[test]
fn insert_then_get_returns_same_record() {
    let mut reg = ListenerRegistry::new();
    reg.insert(record("tn_1", "https://a.example", "s_1"));
    let got = reg.get(&"tn_1".to_string()).expect("inserted record must be found");
    assert_eq!(got.id, "tn_1");
    assert_eq!(got.forwards_to, "upstream");
    assert_eq!(got.metadata, "meta");
    assert_eq!(got.session_id, "s_1");
    let ep = got.endpoint.expect("endpoint present");
    assert_eq!(ep.url, "https://a.example");
    assert_eq!(ep.proto, "http");
}

#[test]
fn at_most_one_record_per_id() {
    let mut reg = ListenerRegistry::new();
    reg.insert(record("tn_1", "https://a.example", "s_1"));
    reg.insert(record("tn_2", "https://b.example", "s_1"));
    assert_eq!(reg.len(), 2);
    // Removing one id leaves exactly one record; no duplicate could hide.
    assert!(reg.remove(&"tn_1".to_string()).is_some());
    assert_eq!(reg.len(), 1);
    assert!(reg.get(&"tn_1".to_string()).is_none());
}

#[test]
fn dropping_handles_does_not_remove_records() {
    let mut reg = ListenerRegistry::new();
    reg.insert(record("tn_1", "https://a.example", "s_1"));
    {
        let rec = reg.get(&"tn_1".to_string()).unwrap();
        let h1 = Listener::from_record(&rec);
        let h2 = h1.duplicate();
        assert_eq!(h1.id(), "tn_1");
        assert_eq!(h2.id(), "tn_1");
        // both handles dropped here
    }
    assert_eq!(reg.len(), 1);
    assert!(reg.get(&"tn_1".to_string()).is_some());
}

#[test]
fn removal_is_idempotent() {
    let mut reg = ListenerRegistry::new();
    reg.insert(record("tn_1", "https://a.example", "s_1"));
    let first = reg.remove(&"tn_1".to_string());
    assert!(first.is_some());
    let second = reg.remove(&"tn_1".to_string());
    assert!(second.is_none());
    assert!(matches!(
        close_begin(&reg, &"tn_1".to_string()),
        Err(Error::NotFound)
    ));
}

#[test]
fn close_finish_reports_remote_error_but_still_removes() {
    let mut reg = ListenerRegistry::new();
    let mut sockets = SocketCache::new();
    reg.insert(record("tn_1", "https://a.example", "s_1"));
    let rpc = RpcOutcome::Failed {
        message: "boom".to_string(),
        code: Some("ERR_NGROK_123".to_string()),
    };
    let (sock, res) = close_finish(&mut reg, &mut sockets, &"tn_1".to_string(), &rpc);
    assert!(sock.is_none(), "no bridge socket was ever cached for this id");
    match res {
        Err(Error::Remote { message, code }) => {
            assert_eq!(message, "error closing listener: boom");
            assert_eq!(code, Some("ERR_NGROK_123".to_string()));
        }
        _ => panic!("the remote failure must surface"),
    }
    // local removal happened regardless of the remote failure
    assert!(reg.get(&"tn_1".to_string()).is_none());
}

#[test]
fn close_finish_hands_back_the_cached_socket_exactly_once() {
    let mut reg = ListenerRegistry::new();
    let mut sockets = SocketCache::new();
    let id = "tn_1".to_string();
    reg.insert(record("tn_1", "https://a.example", "s_1"));
    let bound = SocketHandle {
        token: 7,
        kind: SocketKind::TcpPort(40001),
    };
    sockets.get_or_create_socket(&id, bound);
    // even a failed remote close hands the cached capability back so that
    // the caller closes it; the cache entry itself is purged
    let rpc = RpcOutcome::Failed {
        message: "boom".to_string(),
        code: None,
    };
    let (sock, res) = close_finish(&mut reg, &mut sockets, &id, &rpc);
    assert_eq!(sock.expect("the cached socket comes back").token, 7);
    assert!(res.is_err());
    assert!(sockets.lookup(&id).is_none());
    // the second close finds nothing: no record, no socket to close again
    let (sock2, _res2) = close_finish(&mut reg, &mut sockets, &id, &RpcOutcome::Done);
    assert!(sock2.is_none());
}

#[test]
fn join_token_distinguishes_joinable_listeners() {
    let mut reg = ListenerRegistry::new();
    let mut rec = record("tn_j", "https://a.example", "s_1");
    rec.join_handle = Some(77);
    reg.insert(rec);
    reg.insert(record("tn_p", "https://b.example", "s_1"));
    assert_eq!(join_token(&reg, &"tn_j".to_string()), Ok(77));
    assert!(matches!(
        join_token(&reg, &"tn_p".to_string()),
        Err(Error::NotJoinable)
    ));
    assert!(matches!(
        join_token(&reg, &"tn_x".to_string()),
        Err(Error::NotFound)
    ));
}

#[test]
fn list_filters_by_session() {
    let mut reg = ListenerRegistry::new();
    reg.insert(record("tn_1", "https://a.example", "s_1"));
    reg.insert(record("tn_2", "https://b.example", "s_2"));
    reg.insert(record("tn_3", "https://c.example", "s_1"));
    let all = list_listeners(&reg, None);
    assert_eq!(all.len(), 3);
    let s1 = list_listeners(&reg, Some(&"s_1".to_string()));
    let ids: Vec<String> = s1.iter().map(|l| l.id()).collect();
    assert_eq!(ids, vec!["tn_1".to_string(), "tn_3".to_string()]);
}

#[test]
fn handle_projects_record_fields() {
    let mut rec = record("tn_1", "https://a.example", "s_1");
    rec.labels = vec![("env".to_string(), "prod".to_string())];
    let h = Listener::from_record(&rec);
    assert_eq!(h.id(), "tn_1");
    assert_eq!(h.url(), Some("https://a.example".to_string()));
    assert_eq!(h.proto(), Some("http".to_string()));
    assert_eq!(h.forwards_to(), "upstream");
    assert_eq!(h.metadata(), "meta");
    assert_eq!(h.labels(), vec![("env".to_string(), "prod".to_string())]);
}

#[test]
fn close_url_targets_filters_by_url() {
    let mut reg = ListenerRegistry::new();
    reg.insert(record("tn_1", "https://a.example", "s_1"));
    reg.insert(record("tn_2", "https://b.example", "s_1"));
    let url = "https://b.example".to_string();
    assert_eq!(close_url_targets(&reg, Some(&url)), vec!["tn_2".to_string()]);
    assert_eq!(
        close_url_targets(&reg, None),
        vec!["tn_1".to_string(), "tn_2".to_string()]
    );
    let other = "https://c.example".to_string();
    assert!(close_url_targets(&reg, Some(&other)).is_empty());
}

#[test]
fn labeled_records_match_no_url() {
    let mut reg = ListenerRegistry::new();
    let mut rec = record("tn_l", "ignored", "s_1");
    rec.endpoint = None;
    rec.labels = vec![("env".to_string(), "prod".to_string())];
    reg.insert(rec);
    let url = "ignored".to_string();
    // a labeled record backs no url, so a url-filtered close skips it
    assert!(close_url_targets(&reg, Some(&url)).is_empty());
    assert_eq!(close_url_targets(&reg, None), vec!["tn_l".to_string()]);
}
