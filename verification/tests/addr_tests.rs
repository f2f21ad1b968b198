use ngrok::addr::{
    address_from_server, normalize, parse_target, repair_target, AddrArg, ServerAddress,
};
use ngrok::errors::Error;

#[test]
fn normalize_none_is_loopback_default() {
    assert_eq!(normalize(None), "tcp://localhost:80");
}

#[test]
fn normalize_port_is_loopback_at_port() {
    assert_eq!(normalize(Some(&AddrArg::Port(80))), "tcp://localhost:80");
    assert_eq!(normalize(Some(&AddrArg::Port(8080))), "tcp://localhost:8080");
    assert_eq!(normalize(Some(&AddrArg::Port(65535))), "tcp://localhost:65535");
}

#[test]
fn normalize_bare_host_appends_default_port() {
    assert_eq!(
        normalize(Some(&AddrArg::Name("myhost".to_string()))),
        "tcp://myhost:80"
    );
}

#[test]
fn normalize_host_port_is_unchanged() {
    assert_eq!(
        normalize(Some(&AddrArg::Name("myhost:9000".to_string()))),
        "myhost:9000"
    );
}

#[test]
fn normalize_path_is_local_socket_target() {
    assert_eq!(
        normalize(Some(&AddrArg::Name("/tmp/x.sock".to_string()))),
        "unix:/tmp/x.sock"
    );
}

#[test]
fn normalize_explicit_scheme_kept() {
    assert_eq!(
        normalize(Some(&AddrArg::Name("tcp://example.com:443".to_string()))),
        "tcp://example.com:443"
    );
    assert_eq!(
        normalize(Some(&AddrArg::Name("unix:/run/app.sock".to_string()))),
        "unix:/run/app.sock"
    );
}

#[test]
fn repair_bare_host_port_gets_scheme() {
    assert_eq!(repair_target("myhost:9000"), "tcp://myhost:9000");
    assert_eq!(repair_target("localhost:8080"), "tcp://localhost:8080");
}

#[test]
fn repair_full_url_unchanged() {
    assert_eq!(
        repair_target("https://example.com:443/x"),
        "https://example.com:443/x"
    );
    assert_eq!(repair_target("unix:/tmp/x.sock"), "unix:/tmp/x.sock");
}

#[test]
fn repair_path_gets_local_socket_scheme() {
    assert_eq!(repair_target("/tmp/x.sock"), "unix:/tmp/x.sock");
}

#[test]
fn repair_upper_case_host_is_not_bare_host_port() {
    // The bare host:port shape is lower case only; anything else with a
    // colon is taken as already schemed.
    assert_eq!(repair_target("MyHost:9000"), "MyHost:9000");
}

#[test]
fn parse_target_accepts_schemed_addresses() {
    assert!(parse_target("tcp://localhost:80").is_ok());
    assert!(parse_target("unix:/tmp/x.sock").is_ok());
    assert!(parse_target("https://example.com/x").is_ok());
}

#[test]
fn parse_target_rejects_malformed_addresses() {
    let r = parse_target("http://[bad");
    match r {
        Err(Error::InvalidAddress { addr }) => assert_eq!(addr, "http://[bad"),
        _ => panic!("expected the invalid-address error"),
    }
    assert!(parse_target("/no/scheme/at/all").is_err());
}

#[test]
fn address_from_server_formats_both_domains() {
    assert_eq!(
        address_from_server(&ServerAddress::Inet {
            host: "localhost".to_string(),
            port: 8080
        }),
        "tcp://localhost:8080"
    );
    assert_eq!(
        address_from_server(&ServerAddress::Path {
            path: "/tmp/srv.sock".to_string()
        }),
        "unix:/tmp/srv.sock"
    );
}
