use ngrok::addr::AddrArg;
use ngrok::connect::{configure_session, connect, do_connect, forward, http_endpoint};
use ngrok::connect::{Agent, EndpointConfig};
use ngrok::errors::Error;
use ngrok::listener::{close_begin, RpcOutcome};
use ngrok::options::{OptVal, RawOpt};
use ngrok::registry::{Endpoint, ListenerRecord};
use ngrok::session::Session;

fn text(key: &str, value: &str) -> RawOpt {
    RawOpt {
        key: key.to_string(),
        value: OptVal::Text(value.to_string()),
    }
}

fn tcp_record(id: &str, session: &str) -> ListenerRecord {
    ListenerRecord {
        id: id.to_string(),
        forwards_to: "upstream".to_string(),
        metadata: String::new(),
        endpoint: Some(Endpoint {
            url: "tcp://0.tcp.example:10001".to_string(),
            proto: "tcp".to_string(),
        }),
        labels: Vec::new(),
        session_id: session.to_string(),
        remote_handle: 1,
        join_handle: None,
        forwarding: false,
    }
}

#[test]
fn connect_tcp_with_port_then_disconnect_all() {
    let mut agent = Agent::new();

    // connect(proto="tcp", addr=8080) with no prior session
    let req = connect(Some(&AddrArg::Port(8080)), Some("tcp".to_string()), &Vec::new())
        .expect("plain arguments are accepted");
    assert_eq!(req.addr, "tcp://localhost:8080");
    let plan = do_connect(agent.has_session(), &req, None).expect("the plan is decided");
    assert!(plan.session.is_some(), "no session is live, so one is configured");
    assert!(matches!(plan.endpoint, EndpointConfig::Tcp(_)));
    assert_eq!(plan.forward_addr, "tcp://localhost:8080");

    // the transport connects the session and the listen call succeeds
    agent.session_ready(Session::connected("s_1".to_string()));
    let handle = agent.listen_done(tcp_record("tn_1", "s_1"));
    assert_eq!(handle.proto(), Some("tcp".to_string()));

    // a second connect reuses the singleton
    let req2 = connect(Some(&AddrArg::Port(8081)), Some("tcp".to_string()), &Vec::new()).unwrap();
    let plan2 = do_connect(agent.has_session(), &req2, None).unwrap();
    assert!(plan2.session.is_none(), "the live session is reused");

    // disconnect(None) closes every listener and clears the singleton
    let ids = agent.disconnect(None);
    assert_eq!(ids, vec!["tn_1".to_string()]);
    for id in &ids {
        let (sock, res) = agent.close_confirmed(id, &RpcOutcome::Done);
        assert!(sock.is_none(), "no bridge socket was cached for this id");
        assert!(res.is_ok());
    }
    agent.clear_session();
    assert!(!agent.has_session());
    assert!(agent.registry.get(&"tn_1".to_string()).is_none());
}

#[test]
fn close_after_close_all_reports_not_found() {
    let mut agent = Agent::new();
    agent.session_ready(Session::connected("s_1".to_string()));
    agent.listen_done(tcp_record("tn_1", "s_1"));
    let ids = agent.kill();
    for id in &ids {
        let (_sock, res) = agent.close_confirmed(id, &RpcOutcome::Done);
        res.unwrap();
    }
    agent.clear_session();
    // closing an id removed by the prior close-all
    assert!(matches!(
        close_begin(&agent.registry, &"tn_1".to_string()),
        Err(Error::NotFound)
    ));
}

#[test]
fn oidc_missing_client_secret_is_rejected_before_any_remote_call() {
    let opts = vec![
        text("oidc_issuer_url", "https://x"),
        text("oidc_client_id", "a"),
    ];
    let req = connect(None, Some("http".to_string()), &opts).unwrap();
    let r = do_connect(true, &req, None);
    match r {
        Err(Error::MissingDependentOption { present, missing }) => {
            assert_eq!(present, "oidc_issuer_url");
            assert_eq!(missing, "oidc_client_secret");
        }
        _ => panic!("the missing partner must be rejected eagerly"),
    }
}

#[test]
fn oidc_missing_client_id_is_rejected_first() {
    let opts = vec![text("oidc_issuer_url", "https://x")];
    let r = http_endpoint(&opts);
    match r {
        Err(Error::MissingDependentOption { present, missing }) => {
            assert_eq!(present, "oidc_issuer_url");
            assert_eq!(missing, "oidc_client_id");
        }
        _ => panic!("the missing partner must be rejected eagerly"),
    }
}

#[test]
fn webhook_provider_demands_its_secret() {
    let opts = vec![text("verify_webhook_provider", "github")];
    let r = http_endpoint(&opts);
    assert!(matches!(r, Err(Error::MissingDependentOption { .. })));
    let both = vec![
        text("verify_webhook_provider", "github"),
        text("verify_webhook_secret", "SECRET-REDACTED"),
    ];
    let b = http_endpoint(&both).unwrap();
    assert_eq!(
        b.webhook_verification,
        Some(("github".to_string(), "SECRET-REDACTED".to_string()))
    );
}

#[test]
fn unknown_protocol_is_rejected_at_dispatch() {
    let req = connect(Some(&AddrArg::Port(80)), Some("quic".to_string()), &Vec::new()).unwrap();
    let r = do_connect(true, &req, None);
    match r {
        Err(e) => {
            assert!(matches!(
                e,
                Error::UnsupportedProtocol { ref proto } if proto == "quic"
            ));
            assert_eq!(e.message(), "unhandled protocol quic");
        }
        _ => panic!("an unknown protocol string must be rejected"),
    }
}

#[test]
fn protocol_defaults_to_http() {
    let req = connect(Some(&AddrArg::Port(80)), None, &Vec::new()).unwrap();
    let plan = do_connect(true, &req, None).unwrap();
    assert!(matches!(plan.endpoint, EndpointConfig::Http(_)));
}

#[test]
fn http_aliases_and_last_writes_win() {
    let opts = vec![
        text("hostname", "old.example"),
        text("domain", "new.example"),
        RawOpt {
            key: "schemes".to_string(),
            value: OptVal::TextList(vec!["HTTP".to_string(), "HTTPS".to_string()]),
        },
        RawOpt {
            key: "compression".to_string(),
            value: OptVal::Flag(true),
        },
        text("basic_auth", "user:pass"),
        text("policy", "policy-doc"),
    ];
    let b = http_endpoint(&opts).unwrap();
    assert_eq!(b.domain, Some("new.example".to_string()));
    assert_eq!(b.scheme, Some("HTTPS".to_string()));
    assert!(b.compression);
    assert_eq!(
        b.basic_auth,
        vec![("user".to_string(), "pass".to_string())]
    );
    assert_eq!(b.common.traffic_policy, Some("policy-doc".to_string()));
}

#[test]
fn hostname_alias_applies_when_domain_is_absent() {
    let opts = vec![text("hostname", "alias.example")];
    let b = http_endpoint(&opts).unwrap();
    assert_eq!(b.domain, Some("alias.example".to_string()));
}

#[test]
fn configure_session_reads_the_session_scoped_subset() {
    let opts = vec![
        text("authtoken", "SECRET-REDACTED"),
        text("session_metadata", "agent-1"),
        text("server_addr", "relay.example:443"),
    ];
    let b = configure_session(&opts, None).unwrap();
    assert_eq!(b.authtoken, Some("SECRET-REDACTED".to_string()));
    assert!(b.auth_token_set);
    assert_eq!(b.metadata, Some("agent-1".to_string()));
    assert_eq!(b.server_addr, Some("relay.example:443".to_string()));
    assert_eq!(b.client_type, "ngrok-python");
}

#[test]
fn force_new_session_requests_a_fresh_session() {
    let opts = vec![RawOpt {
        key: "force_new_session".to_string(),
        value: OptVal::Flag(true),
    }];
    let req = connect(Some(&AddrArg::Port(80)), Some("tcp".to_string()), &opts).unwrap();
    let plan = do_connect(true, &req, None).unwrap();
    assert!(plan.session.is_some());
}

#[test]
fn forward_is_an_alias_of_connect() {
    let a = connect(Some(&AddrArg::Port(8080)), Some("tcp".to_string()), &Vec::new()).unwrap();
    let b = forward(Some(&AddrArg::Port(8080)), Some("tcp".to_string()), &Vec::new()).unwrap();
    assert_eq!(a.addr, b.addr);
    assert_eq!(a.proto, b.proto);
}

#[test]
fn addr_option_passes_through_unormalized() {
    let opts = vec![text("addr", "myhost:9000")];
    let req = connect(None, Some("tcp".to_string()), &opts).unwrap();
    assert_eq!(req.addr, "myhost:9000");
}

#[test]
fn empty_schemes_list_leaves_the_scheme_unset() {
    let opts = vec![RawOpt {
        key: "schemes".to_string(),
        value: OptVal::TextList(Vec::new()),
    }];
    let b = http_endpoint(&opts).unwrap();
    assert_eq!(b.scheme, None);
}

#[test]
fn circuit_breaker_option_is_rejected() {
    let opts = vec![text("circuit_breaker", "0.5")];
    assert!(matches!(
        http_endpoint(&opts),
        Err(Error::InvalidOptionValue { .. })
    ));
}

#[test]
fn error_messages_are_human_readable() {
    assert_eq!(
        Error::NotFound.message(),
        "Listener is no longer running"
    );
    assert_eq!(
        Error::NotJoinable.message(),
        "Listener is not joinable"
    );
    assert_eq!(
        Error::InvalidAddress {
            addr: "bad".to_string()
        }
        .message(),
        "Cannot parse address: bad"
    );
}
