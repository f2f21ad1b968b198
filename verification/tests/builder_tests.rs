use ngrok::listener_builder::{
    CommonOptions, HttpListenerBuilder, LabeledListenerBuilder, TcpListenerBuilder,
    TlsListenerBuilder,
};
use ngrok::policy::{PolicyBuilder, PolicyRuleBuilder};
use ngrok::registry::{Endpoint, ListenerRecord, ListenerRegistry};
use ngrok::session::{set_auth_token, Session, SessionBuilder};

#[test]
fn http_builder_setters_write_their_fields() {
    let mut b = HttpListenerBuilder::new();
    b.scheme("HTTPS".to_string());
    b.domain("d.example".to_string());
    b.app_protocol("http2".to_string());
    b.compression();
    b.websocket_tcp_conversion();
    b.request_header("x-a".to_string(), "1".to_string());
    b.response_header("x-b".to_string(), "2".to_string());
    b.remove_request_header("x-c".to_string());
    b.remove_response_header("x-d".to_string());
    b.basic_auth("user".to_string(), "pass".to_string());
    b.allow_user_agent("^curl".to_string());
    b.deny_user_agent("^bot".to_string());
    b.mutual_tlsca(vec![1, 2, 3]);
    b.webhook_verification("github".to_string(), "SECRET-REDACTED".to_string());
    assert_eq!(b.scheme, Some("HTTPS".to_string()));
    assert_eq!(b.domain, Some("d.example".to_string()));
    assert_eq!(b.app_protocol, Some("http2".to_string()));
    assert!(b.compression);
    assert!(b.websocket_tcp_conversion);
    assert_eq!(b.request_headers, vec![("x-a".to_string(), "1".to_string())]);
    assert_eq!(b.response_headers, vec![("x-b".to_string(), "2".to_string())]);
    assert_eq!(b.remove_request_headers, vec!["x-c".to_string()]);
    assert_eq!(b.remove_response_headers, vec!["x-d".to_string()]);
    assert_eq!(b.basic_auth, vec![("user".to_string(), "pass".to_string())]);
    assert_eq!(b.allow_user_agent, vec!["^curl".to_string()]);
    assert_eq!(b.deny_user_agent, vec!["^bot".to_string()]);
    assert_eq!(b.mutual_tlsca, vec![vec![1, 2, 3]]);
    assert_eq!(
        b.webhook_verification,
        Some(("github".to_string(), "SECRET-REDACTED".to_string()))
    );
}

#[test]
fn http_builder_oauth_and_oidc_modules() {
    let mut b = HttpListenerBuilder::new();
    b.oauth(
        "google".to_string(),
        Some(vec!["a@example.com".to_string()]),
        None,
        Some(vec!["email".to_string()]),
        Some("cid".to_string()),
        None,
    );
    let oauth = b.oauth.as_ref().unwrap();
    assert_eq!(oauth.provider, "google");
    assert_eq!(oauth.allow_emails, vec!["a@example.com".to_string()]);
    assert!(oauth.allow_domains.is_empty());
    assert_eq!(oauth.scopes, vec!["email".to_string()]);
    assert_eq!(oauth.client_id, Some("cid".to_string()));
    assert_eq!(oauth.client_secret, None);

    b.oidc(
        "https://issuer".to_string(),
        "id".to_string(),
        "SECRET-REDACTED".to_string(),
        None,
        Some(vec!["example.com".to_string()]),
        None,
    );
    let oidc = b.oidc.as_ref().unwrap();
    assert_eq!(oidc.issuer_url, "https://issuer");
    assert_eq!(oidc.client_id, "id");
    assert_eq!(oidc.allow_domains, vec!["example.com".to_string()]);
}

#[test]
fn common_options_accumulate_cidr_ranges() {
    let mut c = CommonOptions::new();
    c.allow_cidr("10.0.0.0/8".to_string());
    c.allow_cidr("192.168.0.0/16".to_string());
    c.deny_cidr("0.0.0.0/0".to_string());
    c.metadata("m".to_string());
    c.forwards_to("svc".to_string());
    c.proxy_proto("2".to_string());
    c.verify_upstream_tls(false);
    c.policy("p1".to_string());
    c.traffic_policy("p2".to_string());
    assert_eq!(
        c.allow_cidr,
        vec!["10.0.0.0/8".to_string(), "192.168.0.0/16".to_string()]
    );
    assert_eq!(c.deny_cidr, vec!["0.0.0.0/0".to_string()]);
    assert_eq!(c.metadata, Some("m".to_string()));
    assert_eq!(c.forwards_to, Some("svc".to_string()));
    assert_eq!(c.proxy_proto, Some("2".to_string()));
    assert_eq!(c.verify_upstream_tls, Some(false));
    assert_eq!(c.traffic_policy, Some("p2".to_string()));
}

#[test]
fn tcp_and_tls_builders_write_their_fields() {
    let mut t = TcpListenerBuilder::new();
    t.remote_addr("2.tcp.example:21746".to_string());
    t.pooling_enabled(true);
    assert_eq!(t.remote_addr, Some("2.tcp.example:21746".to_string()));
    assert_eq!(t.pooling_enabled, Some(true));

    let mut l = TlsListenerBuilder::new();
    l.domain("tls.example".to_string());
    l.mutual_tlsca(vec![9]);
    l.termination(vec![1], vec![2]);
    assert_eq!(l.domain, Some("tls.example".to_string()));
    assert_eq!(l.mutual_tlsca, vec![vec![9]]);
    assert_eq!(l.termination, Some((vec![1], vec![2])));
}

#[test]
fn labeled_builder_accumulates_labels() {
    let mut b = LabeledListenerBuilder::new();
    b.label("env".to_string(), "prod".to_string());
    b.label("team".to_string(), "edge".to_string());
    b.app_protocol("http1".to_string());
    b.metadata("m".to_string());
    b.verify_upstream_tls(true);
    assert_eq!(
        b.labels,
        vec![
            ("env".to_string(), "prod".to_string()),
            ("team".to_string(), "edge".to_string())
        ]
    );
    assert_eq!(b.app_protocol, Some("http1".to_string()));
}

#[test]
fn session_builder_records_its_configuration() {
    let mut b = SessionBuilder::new();
    assert_eq!(b.client_type, "ngrok-python");
    assert!(!b.auth_token_set);
    b.authtoken("SECRET-REDACTED".to_string());
    assert!(b.auth_token_set);
    b.heartbeat_interval(10);
    b.heartbeat_tolerance(30);
    b.metadata("m".to_string());
    b.server_addr("relay.example:443".to_string());
    b.root_cas("host".to_string());
    b.ca_cert(vec![4, 5]);
    b.client_info("app".to_string(), "9.9".to_string(), None);
    b.handle_disconnection(11);
    b.handle_stop_command(12);
    b.handle_restart_command(13);
    b.handle_update_command(14);
    b.handle_heartbeat(15);
    assert_eq!(b.heartbeat_interval, Some(10));
    assert_eq!(b.heartbeat_tolerance, Some(30));
    assert_eq!(b.ca_certs, vec![vec![4, 5]]);
    assert_eq!(b.client_type, "app");
    assert_eq!(b.disconnect_handler, Some(11));
    assert_eq!(b.heartbeat_handler, Some(15));
}

#[test]
fn default_auth_token_fills_only_unset_builders() {
    let mut store: Option<String> = None;
    set_auth_token(&mut store, "SECRET-REDACTED".to_string());

    let mut unset = SessionBuilder::new();
    unset.handle_default_auth_token(&store);
    assert_eq!(unset.authtoken, Some("SECRET-REDACTED".to_string()));

    let mut set_explicitly = SessionBuilder::new();
    set_explicitly.authtoken("mine".to_string());
    set_explicitly.handle_default_auth_token(&store);
    assert_eq!(set_explicitly.authtoken, Some("mine".to_string()));
}

#[test]
fn authtoken_from_env_marks_set_only_for_nonempty_tokens() {
    let mut a = SessionBuilder::new();
    a.authtoken_from_env(Some("tok".to_string()));
    assert!(a.use_env_token);
    assert!(a.auth_token_set);

    let mut b = SessionBuilder::new();
    b.authtoken_from_env(Some(String::new()));
    assert!(b.use_env_token);
    assert!(!b.auth_token_set);

    let mut c = SessionBuilder::new();
    c.authtoken_from_env(None);
    assert!(!c.auth_token_set);
}

#[test]
fn session_display_names() {
    assert_eq!(SessionBuilder::new().__str__(), "ngrok_session_builder");
    assert_eq!(Session::connected("s".to_string()).__str__(), "ngrok_session");
}

#[test]
fn session_hands_out_fresh_builders() {
    let s = Session::connected("s_1".to_string());
    assert_eq!(s.id, "s_1");
    let h = s.http_endpoint();
    assert!(h.domain.is_none());
    let t = s.tcp_endpoint();
    assert!(t.remote_addr.is_none());
    let l = s.tls_endpoint();
    assert!(l.termination.is_none());
    let lb = s.labeled_listener();
    assert!(lb.labels.is_empty());
}

#[test]
fn policy_builders_keep_rule_order() {
    let mut rule = PolicyRuleBuilder::new();
    assert_eq!(rule.__str__(), "ngrok_policy_rule_builder");
    rule.add_expression("req.url.contains('/admin')".to_string());
    rule.add_action("deny".to_string());
    assert_eq!(rule.expressions, vec!["req.url.contains('/admin')".to_string()]);
    assert_eq!(rule.actions, vec!["deny".to_string()]);

    let mut policy = PolicyBuilder::new();
    assert_eq!(policy.__str__(), "ngrok_policy_builder");
    policy.add_inbound(rule);
    let mut out_rule = PolicyRuleBuilder::new();
    out_rule.add_action("log".to_string());
    policy.add_outbound(out_rule);
    assert_eq!(policy.inbound.len(), 1);
    assert_eq!(policy.outbound.len(), 1);
    assert_eq!(policy.inbound[0].actions, vec!["deny".to_string()]);
    assert_eq!(policy.outbound[0].actions, vec!["log".to_string()]);
}

#[test]
fn session_facade_lists_only_its_listeners() {
    let mut reg = ListenerRegistry::new();
    for (id, sid) in [("tn_1", "s_1"), ("tn_2", "s_2")] {
        reg.insert(ListenerRecord {
            id: id.to_string(),
            forwards_to: String::new(),
            metadata: String::new(),
            endpoint: Some(Endpoint {
                url: format!("https://{id}.example"),
                proto: "http".to_string(),
            }),
            labels: Vec::new(),
            session_id: sid.to_string(),
            remote_handle: 0,
            join_handle: None,
            forwarding: false,
        });
    }
    let s = Session::connected("s_2".to_string());
    let mine = s.get_listeners(&reg);
    assert_eq!(mine.len(), 1);
    assert_eq!(mine[0].id(), "tn_2");
}
