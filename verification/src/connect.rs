//! The convenience connect flow: normalize the caller's address, clean and
//! type the option set, configure a session when none is live (or a new one
//! is forced), dispatch by protocol to the matching builder, and plan the
//! background forwarding. Every decision is made here, eagerly and before
//! any remote call; the remote calls themselves are events the surrounding
//! runtime performs and reports back.

use vstd::prelude::*;
use vstd::string::*;

use crate::addr::{normalize, spec_normalize, AddrArg};
use crate::errors::Error;
use crate::listener::{spec_close_targets, spec_handle_of, Listener};
use crate::listener_builder::{
    opt_text_view, CommonOptions, CommonView, HttpListenerBuilder, LabeledListenerBuilder,
    TcpListenerBuilder, TlsListenerBuilder,
};
use crate::listener_builder::{OauthOptions, OauthView, OidcOptions, OidcView};
use crate::options::{
    clean_options, get_bytes_list, get_flag, get_pairs, get_text, get_texts, opt_lookup,
    opts_view, spec_clean, spec_get_bytes, spec_get_flag, spec_get_pairs, spec_get_text,
    spec_get_texts, OptValView, RawOpt,
};
use crate::registry::{contains_id, spec_lookup, ListenerRecord, ListenerRegistry};
use crate::session::{spec_session_builder_empty, Session, SessionBuilder, SessionBuilderView};
use crate::socket::SocketCache;
use crate::text::{string_eq, texts_view};

verus! {

/// The string read for `key`, when the read succeeds and yields one.
pub open spec fn text_or_none(s: Seq<(Seq<char>, OptValView)>, key: Seq<char>) -> Option<
    Seq<char>,
> {
    match spec_get_text(s, key) {
        Ok(v) => v,
        Err(()) => None,
    }
}

/// The flag read for `key`, when the read succeeds and yields one.
pub open spec fn flag_or_none(s: Seq<(Seq<char>, OptValView)>, key: Seq<char>) -> Option<bool> {
    match spec_get_flag(s, key) {
        Ok(v) => v,
        Err(()) => None,
    }
}

/// The string list read for `key`, empty when absent.
pub open spec fn texts_or_empty(s: Seq<(Seq<char>, OptValView)>, key: Seq<char>) -> Seq<
    Seq<char>,
> {
    match spec_get_texts(s, key) {
        Ok(Some(l)) => l,
        _ => Seq::empty(),
    }
}

/// The byte-string list read for `key`, empty when absent.
pub open spec fn bytes_or_empty(s: Seq<(Seq<char>, OptValView)>, key: Seq<char>) -> Seq<Seq<u8>> {
    match spec_get_bytes(s, key) {
        Ok(Some(l)) => l,
        _ => Seq::empty(),
    }
}

/// The pair list read for `key`, empty when absent.
pub open spec fn pairs_or_empty(s: Seq<(Seq<char>, OptValView)>, key: Seq<char>) -> Seq<
    (Seq<char>, Seq<char>),
> {
    match spec_get_pairs(s, key) {
        Ok(Some(l)) => l,
        _ => Seq::empty(),
    }
}

/// The shared option block read from a cleaned option set.
pub open spec fn spec_common_view(o: Seq<(Seq<char>, OptValView)>) -> CommonView {
    CommonView {
        metadata: text_or_none(o, "metadata"@),
        allow_cidr: texts_or_empty(o, "allow_cidr"@),
        deny_cidr: texts_or_empty(o, "deny_cidr"@),
        proxy_proto: text_or_none(o, "proxy_proto"@),
        forwards_to: text_or_none(o, "forwards_to"@),
        verify_upstream_tls: flag_or_none(o, "verify_upstream_tls"@),
        traffic_policy: match text_or_none(o, "policy"@) {
            Some(p) => Some(p),
            None => text_or_none(o, "traffic_policy"@),
        },
    }
}

/// Whether every shared option key has a well-shaped value.
pub open spec fn spec_common_ok(o: Seq<(Seq<char>, OptValView)>) -> bool {
    &&& spec_get_text(o, "metadata"@) is Ok
    &&& spec_get_texts(o, "allow_cidr"@) is Ok
    &&& spec_get_texts(o, "deny_cidr"@) is Ok
    &&& spec_get_text(o, "proxy_proto"@) is Ok
    &&& spec_get_text(o, "forwards_to"@) is Ok
    &&& spec_get_flag(o, "verify_upstream_tls"@) is Ok
    &&& spec_get_text(o, "traffic_policy"@) is Ok
    &&& spec_get_text(o, "policy"@) is Ok
}

/// Read the shared option block from a cleaned option set.
pub fn read_common(opts: &Vec<RawOpt>) -> (r: Result<CommonOptions, Error>)
    ensures
        r is Ok <==> spec_common_ok(opts_view(opts@)),
        r matches Ok(c) ==> c@ == spec_common_view(opts_view(opts@)),
        r matches Err(e) ==> e matches Error::InvalidOptionValue { .. },
{
    let metadata = match get_text(opts, "metadata") {
        Ok(v) => v,
        Err(e) => {
            return Err(e);
        },
    };
    let allow_cidr = match get_texts(opts, "allow_cidr") {
        Ok(v) => v,
        Err(e) => {
            return Err(e);
        },
    };
    let deny_cidr = match get_texts(opts, "deny_cidr") {
        Ok(v) => v,
        Err(e) => {
            return Err(e);
        },
    };
    let proxy_proto = match get_text(opts, "proxy_proto") {
        Ok(v) => v,
        Err(e) => {
            return Err(e);
        },
    };
    let forwards_to = match get_text(opts, "forwards_to") {
        Ok(v) => v,
        Err(e) => {
            return Err(e);
        },
    };
    let verify_upstream_tls = match get_flag(opts, "verify_upstream_tls") {
        Ok(v) => v,
        Err(e) => {
            return Err(e);
        },
    };
    let traffic_policy = match get_text(opts, "traffic_policy") {
        Ok(v) => v,
        Err(e) => {
            return Err(e);
        },
    };
    let policy = match get_text(opts, "policy") {
        Ok(v) => v,
        Err(e) => {
            return Err(e);
        },
    };
    let c = CommonOptions {
        metadata,
        allow_cidr: match allow_cidr {
            Some(l) => l,
            None => Vec::new(),
        },
        deny_cidr: match deny_cidr {
            Some(l) => l,
            None => Vec::new(),
        },
        proxy_proto,
        forwards_to,
        verify_upstream_tls,
        traffic_policy: match policy {
            Some(p) => Some(p),
            None => traffic_policy,
        },
    };
    proof {
        let o = opts_view(opts@);
        assert(c@.allow_cidr =~= texts_or_empty(o, "allow_cidr"@));
        assert(c@.deny_cidr =~= texts_or_empty(o, "deny_cidr"@));
    }
    Ok(c)
}

/// The OAuth module read from a cleaned option set, keyed on the provider.
pub open spec fn spec_oauth_opt(o: Seq<(Seq<char>, OptValView)>) -> Option<OauthView> {
    match text_or_none(o, "oauth_provider"@) {
        Some(p) => Some(
            OauthView {
                provider: p,
                allow_emails: texts_or_empty(o, "oauth_allow_emails"@),
                allow_domains: texts_or_empty(o, "oauth_allow_domains"@),
                scopes: texts_or_empty(o, "oauth_scopes"@),
                client_id: text_or_none(o, "oauth_client_id"@),
                client_secret: text_or_none(o, "oauth_client_secret"@),
            },
        ),
        None => None,
    }
}

/// The OpenID Connect module read from a cleaned option set, keyed on the
/// issuer URL; meaningful when the required client id and secret are there.
pub open spec fn spec_oidc_opt(o: Seq<(Seq<char>, OptValView)>) -> Option<OidcView> {
    match text_or_none(o, "oidc_issuer_url"@) {
        Some(u) => Some(
            OidcView {
                issuer_url: u,
                client_id: match text_or_none(o, "oidc_client_id"@) {
                    Some(c) => c,
                    None => Seq::empty(),
                },
                client_secret: match text_or_none(o, "oidc_client_secret"@) {
                    Some(c) => c,
                    None => Seq::empty(),
                },
                allow_emails: texts_or_empty(o, "oidc_allow_emails"@),
                allow_domains: texts_or_empty(o, "oidc_allow_domains"@),
                scopes: texts_or_empty(o, "oidc_scopes"@),
            },
        ),
        None => None,
    }
}

/// The HTTP builder read from a cleaned option set.
pub open spec fn spec_http_view(o: Seq<(Seq<char>, OptValView)>) -> crate::listener_builder::HttpBuilderView {
    crate::listener_builder::HttpBuilderView {
        common: spec_common_view(o),
        scheme: if texts_or_empty(o, "schemes"@).len() > 0 {
            Some(texts_or_empty(o, "schemes"@).last())
        } else {
            None
        },
        domain: match text_or_none(o, "domain"@) {
            Some(d) => Some(d),
            None => text_or_none(o, "hostname"@),
        },
        app_protocol: text_or_none(o, "app_protocol"@),
        mutual_tlsca: bytes_or_empty(o, "mutual_tls_cas"@),
        compression: flag_or_none(o, "compression"@) == Some(true),
        websocket_tcp_conversion: flag_or_none(o, "websocket_tcp_converter"@) == Some(true),
        request_headers: pairs_or_empty(o, "request_header_add"@),
        response_headers: pairs_or_empty(o, "response_header_add"@),
        remove_request_headers: texts_or_empty(o, "request_header_remove"@),
        remove_response_headers: texts_or_empty(o, "response_header_remove"@),
        basic_auth: pairs_or_empty(o, "basic_auth"@),
        allow_user_agent: texts_or_empty(o, "allow_user_agent"@),
        deny_user_agent: texts_or_empty(o, "deny_user_agent"@),
        oauth: spec_oauth_opt(o),
        oidc: spec_oidc_opt(o),
        webhook_verification: match text_or_none(o, "verify_webhook_provider"@) {
            Some(p) => Some(
                (
                    p,
                    match text_or_none(o, "verify_webhook_secret"@) {
                        Some(sec) => sec,
                        None => Seq::empty(),
                    },
                ),
            ),
            None => None,
        },
    }
}

/// Whether every HTTP option key has a well-shaped value and every paired
/// option comes with its required partner. The circuit-breaker ratio is a
/// floating-point option this core does not carry.
pub open spec fn spec_http_ok(o: Seq<(Seq<char>, OptValView)>) -> bool {
    &&& spec_common_ok(o)
    &&& spec_get_texts(o, "schemes"@) is Ok
    &&& spec_get_text(o, "hostname"@) is Ok
    &&& spec_get_text(o, "domain"@) is Ok
    &&& spec_get_text(o, "app_protocol"@) is Ok
    &&& spec_get_bytes(o, "mutual_tls_cas"@) is Ok
    &&& spec_get_flag(o, "compression"@) is Ok
    &&& spec_get_flag(o, "websocket_tcp_converter"@) is Ok
    &&& spec_get_pairs(o, "request_header_add"@) is Ok
    &&& spec_get_pairs(o, "response_header_add"@) is Ok
    &&& spec_get_texts(o, "request_header_remove"@) is Ok
    &&& spec_get_texts(o, "response_header_remove"@) is Ok
    &&& spec_get_pairs(o, "basic_auth"@) is Ok
    &&& spec_get_texts(o, "allow_user_agent"@) is Ok
    &&& spec_get_texts(o, "deny_user_agent"@) is Ok
    &&& opt_lookup(o, "circuit_breaker"@) matches Some(v) ==> v is Null
    &&& spec_get_text(o, "oauth_provider"@) is Ok
    &&& spec_get_texts(o, "oauth_allow_emails"@) is Ok
    &&& spec_get_texts(o, "oauth_allow_domains"@) is Ok
    &&& spec_get_texts(o, "oauth_scopes"@) is Ok
    &&& spec_get_text(o, "oauth_client_id"@) is Ok
    &&& spec_get_text(o, "oauth_client_secret"@) is Ok
    &&& spec_get_text(o, "oidc_issuer_url"@) is Ok
    &&& spec_get_text(o, "oidc_client_id"@) is Ok
    &&& spec_get_text(o, "oidc_client_secret"@) is Ok
    &&& spec_get_texts(o, "oidc_allow_emails"@) is Ok
    &&& spec_get_texts(o, "oidc_allow_domains"@) is Ok
    &&& spec_get_texts(o, "oidc_scopes"@) is Ok
    &&& spec_get_text(o, "verify_webhook_provider"@) is Ok
    &&& spec_get_text(o, "verify_webhook_secret"@) is Ok
    &&& text_or_none(o, "oidc_issuer_url"@) is Some ==> (text_or_none(o, "oidc_client_id"@)
        is Some && text_or_none(o, "oidc_client_secret"@) is Some)
    &&& text_or_none(o, "verify_webhook_provider"@) is Some ==> text_or_none(
        o,
        "verify_webhook_secret"@,
    ) is Some
}

/// Configure an HTTP listener from a cleaned option set: the shared block,
/// the HTTP modules, and the authentication modules, with every paired
/// option checked eagerly, before any remote call.
#[verifier::rlimit(60)]
pub fn http_endpoint(opts: &Vec<RawOpt>) -> (r: Result<HttpListenerBuilder, Error>)
    ensures
        r is Ok <==> spec_http_ok(opts_view(opts@)),
        r matches Ok(b) ==> b@ == spec_http_view(opts_view(opts@)),
        r matches Err(e) ==> (e matches Error::InvalidOptionValue { .. } || e matches
            Error::MissingDependentOption { .. }),
        (spec_http_shapes_ok(opts_view(opts@)) && text_or_none(opts_view(opts@), "oidc_issuer_url"@)
            is Some && text_or_none(opts_view(opts@), "oidc_client_id"@) is None) ==> (r matches
            Err(e) && (e matches Error::MissingDependentOption { present, missing } && present@
            == "oidc_issuer_url"@ && missing@ == "oidc_client_id"@)),
        (spec_http_shapes_ok(opts_view(opts@)) && text_or_none(opts_view(opts@), "oidc_issuer_url"@)
            is Some && text_or_none(opts_view(opts@), "oidc_client_id"@) is Some && text_or_none(
            opts_view(opts@),
            "oidc_client_secret"@,
        ) is None) ==> (r matches Err(e) && (e matches Error::MissingDependentOption {
            present,
            missing,
        } && present@ == "oidc_issuer_url"@ && missing@ == "oidc_client_secret"@)),
        (spec_http_shapes_ok(opts_view(opts@)) && (text_or_none(
            opts_view(opts@),
            "oidc_issuer_url"@,
        ) is Some ==> (text_or_none(opts_view(opts@), "oidc_client_id"@) is Some && text_or_none(
            opts_view(opts@),
            "oidc_client_secret"@,
        ) is Some)) && text_or_none(opts_view(opts@), "verify_webhook_provider"@) is Some
            && text_or_none(opts_view(opts@), "verify_webhook_secret"@) is None) ==> (r matches
            Err(e) && (e matches Error::MissingDependentOption { present, missing } && present@
            == "verify_webhook_provider"@ && missing@ == "verify_webhook_secret"@)),
{
    let common = match read_common(opts) {
        Ok(c) => c,
        Err(e) => {
            return Err(e);
        },
    };
    let schemes = match get_texts(opts, "schemes") {
        Ok(v) => v,
        Err(e) => {
            return Err(e);
        },
    };
    let hostname = match get_text(opts, "hostname") {
        Ok(v) => v,
        Err(e) => {
            return Err(e);
        },
    };
    let domain = match get_text(opts, "domain") {
        Ok(v) => v,
        Err(e) => {
            return Err(e);
        },
    };
    let app_protocol = match get_text(opts, "app_protocol") {
        Ok(v) => v,
        Err(e) => {
            return Err(e);
        },
    };
    let mutual_tlsca = match get_bytes_list(opts, "mutual_tls_cas") {
        Ok(v) => v,
        Err(e) => {
            return Err(e);
        },
    };
    let compression = match get_flag(opts, "compression") {
        Ok(v) => v,
        Err(e) => {
            return Err(e);
        },
    };
    let websocket = match get_flag(opts, "websocket_tcp_converter") {
        Ok(v) => v,
        Err(e) => {
            return Err(e);
        },
    };
    let request_headers = match get_pairs(opts, "request_header_add") {
        Ok(v) => v,
        Err(e) => {
            return Err(e);
        },
    };
    let response_headers = match get_pairs(opts, "response_header_add") {
        Ok(v) => v,
        Err(e) => {
            return Err(e);
        },
    };
    let remove_request_headers = match get_texts(opts, "request_header_remove") {
        Ok(v) => v,
        Err(e) => {
            return Err(e);
        },
    };
    let remove_response_headers = match get_texts(opts, "response_header_remove") {
        Ok(v) => v,
        Err(e) => {
            return Err(e);
        },
    };
    let basic_auth = match get_pairs(opts, "basic_auth") {
        Ok(v) => v,
        Err(e) => {
            return Err(e);
        },
    };
    let allow_user_agent = match get_texts(opts, "allow_user_agent") {
        Ok(v) => v,
        Err(e) => {
            return Err(e);
        },
    };
    let deny_user_agent = match get_texts(opts, "deny_user_agent") {
        Ok(v) => v,
        Err(e) => {
            return Err(e);
        },
    };
    if crate::options::has_opt(opts, "circuit_breaker") {
        return Err(Error::InvalidOptionValue { key: "circuit_breaker".to_owned() });
    }
    let oauth_provider = match get_text(opts, "oauth_provider") {
        Ok(v) => v,
        Err(e) => {
            return Err(e);
        },
    };
    let oauth_allow_emails = match get_texts(opts, "oauth_allow_emails") {
        Ok(v) => v,
        Err(e) => {
            return Err(e);
        },
    };
    let oauth_allow_domains = match get_texts(opts, "oauth_allow_domains") {
        Ok(v) => v,
        Err(e) => {
            return Err(e);
        },
    };
    let oauth_scopes = match get_texts(opts, "oauth_scopes") {
        Ok(v) => v,
        Err(e) => {
            return Err(e);
        },
    };
    let oauth_client_id = match get_text(opts, "oauth_client_id") {
        Ok(v) => v,
        Err(e) => {
            return Err(e);
        },
    };
    let oauth_client_secret = match get_text(opts, "oauth_client_secret") {
        Ok(v) => v,
        Err(e) => {
            return Err(e);
        },
    };
    let oidc_issuer_url = match get_text(opts, "oidc_issuer_url") {
        Ok(v) => v,
        Err(e) => {
            return Err(e);
        },
    };
    let oidc_client_id = match get_text(opts, "oidc_client_id") {
        Ok(v) => v,
        Err(e) => {
            return Err(e);
        },
    };
    let oidc_client_secret = match get_text(opts, "oidc_client_secret") {
        Ok(v) => v,
        Err(e) => {
            return Err(e);
        },
    };
    let oidc_allow_emails = match get_texts(opts, "oidc_allow_emails") {
        Ok(v) => v,
        Err(e) => {
            return Err(e);
        },
    };
    let oidc_allow_domains = match get_texts(opts, "oidc_allow_domains") {
        Ok(v) => v,
        Err(e) => {
            return Err(e);
        },
    };
    let oidc_scopes = match get_texts(opts, "oidc_scopes") {
        Ok(v) => v,
        Err(e) => {
            return Err(e);
        },
    };
    let webhook_provider = match get_text(opts, "verify_webhook_provider") {
        Ok(v) => v,
        Err(e) => {
            return Err(e);
        },
    };
    let webhook_secret = match get_text(opts, "verify_webhook_secret") {
        Ok(v) => v,
        Err(e) => {
            return Err(e);
        },
    };
    // The OpenID Connect module needs all three of issuer, client id and
    // client secret; reject eagerly when a partner is missing.
    let oidc: Option<OidcOptions> = match oidc_issuer_url {
        Some(issuer_url) => {
            let client_id = match oidc_client_id {
                Some(c) => c,
                None => {
                    return Err(
                        Error::MissingDependentOption {
                            present: "oidc_issuer_url".to_owned(),
                            missing: "oidc_client_id".to_owned(),
                        },
                    );
                },
            };
            let client_secret = match oidc_client_secret {
                Some(c) => c,
                None => {
                    return Err(
                        Error::MissingDependentOption {
                            present: "oidc_issuer_url".to_owned(),
                            missing: "oidc_client_secret".to_owned(),
                        },
                    );
                },
            };
            Some(
                OidcOptions {
                    issuer_url,
                    client_id,
                    client_secret,
                    allow_emails: match oidc_allow_emails {
                        Some(l) => l,
                        None => Vec::new(),
                    },
                    allow_domains: match oidc_allow_domains {
                        Some(l) => l,
                        None => Vec::new(),
                    },
                    scopes: match oidc_scopes {
                        Some(l) => l,
                        None => Vec::new(),
                    },
                },
            )
        },
        None => None,
    };
    // Webhook verification needs provider and secret together.
    let webhook_verification: Option<(String, String)> = match webhook_provider {
        Some(p) => {
            let sec = match webhook_secret {
                Some(s) => s,
                None => {
                    return Err(
                        Error::MissingDependentOption {
                            present: "verify_webhook_provider".to_owned(),
                            missing: "verify_webhook_secret".to_owned(),
                        },
                    );
                },
            };
            Some((p, sec))
        },
        None => None,
    };
    let oauth: Option<OauthOptions> = match oauth_provider {
        Some(provider) => Some(
            OauthOptions {
                provider,
                allow_emails: match oauth_allow_emails {
                    Some(l) => l,
                    None => Vec::new(),
                },
                allow_domains: match oauth_allow_domains {
                    Some(l) => l,
                    None => Vec::new(),
                },
                scopes: match oauth_scopes {
                    Some(l) => l,
                    None => Vec::new(),
                },
                client_id: oauth_client_id,
                client_secret: oauth_client_secret,
            },
        ),
        None => None,
    };
    let scheme: Option<String> = match &schemes {
        Some(l) => if l.len() > 0 {
            Some(l[l.len() - 1].clone())
        } else {
            None
        },
        None => None,
    };
    let b = HttpListenerBuilder {
        common,
        scheme,
        domain: match domain {
            Some(d) => Some(d),
            None => hostname,
        },
        app_protocol,
        mutual_tlsca: match mutual_tlsca {
            Some(l) => l,
            None => Vec::new(),
        },
        compression: match compression {
            Some(true) => true,
            _ => false,
        },
        websocket_tcp_conversion: match websocket {
            Some(true) => true,
            _ => false,
        },
        request_headers: match request_headers {
            Some(l) => l,
            None => Vec::new(),
        },
        response_headers: match response_headers {
            Some(l) => l,
            None => Vec::new(),
        },
        remove_request_headers: match remove_request_headers {
            Some(l) => l,
            None => Vec::new(),
        },
        remove_response_headers: match remove_response_headers {
            Some(l) => l,
            None => Vec::new(),
        },
        basic_auth: match basic_auth {
            Some(l) => l,
            None => Vec::new(),
        },
        allow_user_agent: match allow_user_agent {
            Some(l) => l,
            None => Vec::new(),
        },
        deny_user_agent: match deny_user_agent {
            Some(l) => l,
            None => Vec::new(),
        },
        oauth,
        oidc,
        webhook_verification,
    };
    proof {
        let o = opts_view(opts@);
        assert(b@.mutual_tlsca =~= bytes_or_empty(o, "mutual_tls_cas"@));
        assert(b@.request_headers =~= pairs_or_empty(o, "request_header_add"@));
        assert(b@.response_headers =~= pairs_or_empty(o, "response_header_add"@));
        assert(b@.remove_request_headers =~= texts_or_empty(o, "request_header_remove"@));
        assert(b@.remove_response_headers =~= texts_or_empty(o, "response_header_remove"@));
        assert(b@.basic_auth =~= pairs_or_empty(o, "basic_auth"@));
        assert(b@.allow_user_agent =~= texts_or_empty(o, "allow_user_agent"@));
        assert(b@.deny_user_agent =~= texts_or_empty(o, "deny_user_agent"@));
        match b@.oauth {
            Some(ov) => {
                assert(ov.allow_emails =~= texts_or_empty(o, "oauth_allow_emails"@));
                assert(ov.allow_domains =~= texts_or_empty(o, "oauth_allow_domains"@));
                assert(ov.scopes =~= texts_or_empty(o, "oauth_scopes"@));
            },
            None => {},
        }
        match b@.oidc {
            Some(ov) => {
                assert(ov.allow_emails =~= texts_or_empty(o, "oidc_allow_emails"@));
                assert(ov.allow_domains =~= texts_or_empty(o, "oidc_allow_domains"@));
                assert(ov.scopes =~= texts_or_empty(o, "oidc_scopes"@));
            },
            None => {},
        }
        match &schemes {
            Some(l) => {
                if l@.len() > 0 {
                    assert(texts_view(l@).last() == l@[l@.len() - 1]@);
                }
            },
            None => {},
        }
        assert(b@ == spec_http_view(o));
    }
    Ok(b)
}

/// Whether every HTTP option key has a well-shaped value, ignoring the
/// paired-option requirements.
pub open spec fn spec_http_shapes_ok(o: Seq<(Seq<char>, OptValView)>) -> bool {
    &&& spec_common_ok(o)
    &&& spec_get_texts(o, "schemes"@) is Ok
    &&& spec_get_text(o, "hostname"@) is Ok
    &&& spec_get_text(o, "domain"@) is Ok
    &&& spec_get_text(o, "app_protocol"@) is Ok
    &&& spec_get_bytes(o, "mutual_tls_cas"@) is Ok
    &&& spec_get_flag(o, "compression"@) is Ok
    &&& spec_get_flag(o, "websocket_tcp_converter"@) is Ok
    &&& spec_get_pairs(o, "request_header_add"@) is Ok
    &&& spec_get_pairs(o, "response_header_add"@) is Ok
    &&& spec_get_texts(o, "request_header_remove"@) is Ok
    &&& spec_get_texts(o, "response_header_remove"@) is Ok
    &&& spec_get_pairs(o, "basic_auth"@) is Ok
    &&& spec_get_texts(o, "allow_user_agent"@) is Ok
    &&& spec_get_texts(o, "deny_user_agent"@) is Ok
    &&& opt_lookup(o, "circuit_breaker"@) matches Some(v) ==> v is Null
    &&& spec_get_text(o, "oauth_provider"@) is Ok
    &&& spec_get_texts(o, "oauth_allow_emails"@) is Ok
    &&& spec_get_texts(o, "oauth_allow_domains"@) is Ok
    &&& spec_get_texts(o, "oauth_scopes"@) is Ok
    &&& spec_get_text(o, "oauth_client_id"@) is Ok
    &&& spec_get_text(o, "oauth_client_secret"@) is Ok
    &&& spec_get_text(o, "oidc_issuer_url"@) is Ok
    &&& spec_get_text(o, "oidc_client_id"@) is Ok
    &&& spec_get_text(o, "oidc_client_secret"@) is Ok
    &&& spec_get_texts(o, "oidc_allow_emails"@) is Ok
    &&& spec_get_texts(o, "oidc_allow_domains"@) is Ok
    &&& spec_get_texts(o, "oidc_scopes"@) is Ok
    &&& spec_get_text(o, "verify_webhook_provider"@) is Ok
    &&& spec_get_text(o, "verify_webhook_secret"@) is Ok
}

/// The TCP builder read from a cleaned option set.
pub open spec fn spec_tcp_view(o: Seq<(Seq<char>, OptValView)>) -> crate::listener_builder::TcpBuilderView {
    crate::listener_builder::TcpBuilderView {
        common: spec_common_view(o),
        remote_addr: text_or_none(o, "remote_addr"@),
        pooling_enabled: None,
    }
}

pub open spec fn spec_tcp_ok(o: Seq<(Seq<char>, OptValView)>) -> bool {
    &&& spec_common_ok(o)
    &&& spec_get_text(o, "remote_addr"@) is Ok
}

/// Configure a TCP listener from a cleaned option set.
pub fn tcp_endpoint(opts: &Vec<RawOpt>) -> (r: Result<TcpListenerBuilder, Error>)
    ensures
        r is Ok <==> spec_tcp_ok(opts_view(opts@)),
        r matches Ok(b) ==> b@ == spec_tcp_view(opts_view(opts@)),
        r matches Err(e) ==> e matches Error::InvalidOptionValue { .. },
{
    let common = match read_common(opts) {
        Ok(c) => c,
        Err(e) => {
            return Err(e);
        },
    };
    let remote_addr = match get_text(opts, "remote_addr") {
        Ok(v) => v,
        Err(e) => {
            return Err(e);
        },
    };
    Ok(TcpListenerBuilder { common, remote_addr, pooling_enabled: None })
}

/// The TLS builder read from a cleaned option set.
pub open spec fn spec_tls_view(o: Seq<(Seq<char>, OptValView)>) -> crate::listener_builder::TlsBuilderView {
    crate::listener_builder::TlsBuilderView {
        common: spec_common_view(o),
        domain: match text_or_none(o, "domain"@) {
            Some(d) => Some(d),
            None => text_or_none(o, "hostname"@),
        },
        mutual_tlsca: bytes_or_empty(o, "mutual_tls_cas"@),
        termination: match blob_or_none(o, "crt"@) {
            Some(c) => Some(
                (
                    c,
                    match blob_or_none(o, "key"@) {
                        Some(k) => k,
                        None => Seq::empty(),
                    },
                ),
            ),
            None => None,
        },
    }
}

/// The byte string read for `key`, when the read succeeds and yields one.
pub open spec fn blob_or_none(s: Seq<(Seq<char>, OptValView)>, key: Seq<char>) -> Option<Seq<u8>> {
    match crate::options::spec_get_blob(s, key) {
        Ok(v) => v,
        Err(()) => None,
    }
}

pub open spec fn spec_tls_ok(o: Seq<(Seq<char>, OptValView)>) -> bool {
    &&& spec_common_ok(o)
    &&& spec_get_text(o, "hostname"@) is Ok
    &&& spec_get_text(o, "domain"@) is Ok
    &&& spec_get_bytes(o, "mutual_tls_cas"@) is Ok
    &&& crate::options::spec_get_blob(o, "crt"@) is Ok
    &&& crate::options::spec_get_blob(o, "key"@) is Ok
    &&& blob_or_none(o, "crt"@) is Some ==> blob_or_none(o, "key"@) is Some
}

/// Configure a TLS listener from a cleaned option set; a termination
/// certificate demands its key.
pub fn tls_endpoint(opts: &Vec<RawOpt>) -> (r: Result<TlsListenerBuilder, Error>)
    ensures
        r is Ok <==> spec_tls_ok(opts_view(opts@)),
        r matches Ok(b) ==> b@ == spec_tls_view(opts_view(opts@)),
        r matches Err(e) ==> (e matches Error::InvalidOptionValue { .. } || e matches
            Error::MissingDependentOption { .. }),
        (spec_common_ok(opts_view(opts@)) && spec_get_text(opts_view(opts@), "hostname"@) is Ok
            && spec_get_text(opts_view(opts@), "domain"@) is Ok && spec_get_bytes(
            opts_view(opts@),
            "mutual_tls_cas"@,
        ) is Ok && crate::options::spec_get_blob(opts_view(opts@), "crt"@) is Ok
            && crate::options::spec_get_blob(opts_view(opts@), "key"@) is Ok && blob_or_none(
            opts_view(opts@),
            "crt"@,
        ) is Some && blob_or_none(opts_view(opts@), "key"@) is None) ==> (r matches Err(e) && (
        e matches Error::MissingDependentOption { present, missing } && present@ == "crt"@
            && missing@ == "key"@)),
{
    let common = match read_common(opts) {
        Ok(c) => c,
        Err(e) => {
            return Err(e);
        },
    };
    let hostname = match get_text(opts, "hostname") {
        Ok(v) => v,
        Err(e) => {
            return Err(e);
        },
    };
    let domain = match get_text(opts, "domain") {
        Ok(v) => v,
        Err(e) => {
            return Err(e);
        },
    };
    let mutual_tlsca = match get_bytes_list(opts, "mutual_tls_cas") {
        Ok(v) => v,
        Err(e) => {
            return Err(e);
        },
    };
    let crt = match crate::options::get_blob(opts, "crt") {
        Ok(v) => v,
        Err(e) => {
            return Err(e);
        },
    };
    let key = match crate::options::get_blob(opts, "key") {
        Ok(v) => v,
        Err(e) => {
            return Err(e);
        },
    };
    let termination: Option<(Vec<u8>, Vec<u8>)> = match crt {
        Some(c) => {
            let k = match key {
                Some(k) => k,
                None => {
                    return Err(
                        Error::MissingDependentOption {
                            present: "crt".to_owned(),
                            missing: "key".to_owned(),
                        },
                    );
                },
            };
            Some((c, k))
        },
        None => None,
    };
    let b = TlsListenerBuilder {
        common,
        domain: match domain {
            Some(d) => Some(d),
            None => hostname,
        },
        mutual_tlsca: match mutual_tlsca {
            Some(l) => l,
            None => Vec::new(),
        },
        termination,
    };
    proof {
        let o = opts_view(opts@);
        assert(b@.mutual_tlsca =~= bytes_or_empty(o, "mutual_tls_cas"@));
        assert(b@ == spec_tls_view(o));
    }
    Ok(b)
}

/// The labeled builder read from a cleaned option set.
pub open spec fn spec_labeled_view(o: Seq<(Seq<char>, OptValView)>) -> crate::listener_builder::LabeledBuilderView {
    crate::listener_builder::LabeledBuilderView {
        metadata: text_or_none(o, "metadata"@),
        app_protocol: text_or_none(o, "app_protocol"@),
        verify_upstream_tls: flag_or_none(o, "verify_upstream_tls"@),
        labels: pairs_or_empty(o, "labels"@),
    }
}

pub open spec fn spec_labeled_ok(o: Seq<(Seq<char>, OptValView)>) -> bool {
    &&& spec_get_text(o, "metadata"@) is Ok
    &&& spec_get_text(o, "app_protocol"@) is Ok
    &&& spec_get_flag(o, "verify_upstream_tls"@) is Ok
    &&& spec_get_pairs(o, "labels"@) is Ok
}

/// Configure a labeled listener from a cleaned option set; labels come as
/// `key:value` pairs.
pub fn labeled_listener(opts: &Vec<RawOpt>) -> (r: Result<LabeledListenerBuilder, Error>)
    ensures
        r is Ok <==> spec_labeled_ok(opts_view(opts@)),
        r matches Ok(b) ==> b@ == spec_labeled_view(opts_view(opts@)),
        r matches Err(e) ==> e matches Error::InvalidOptionValue { .. },
{
    let metadata = match get_text(opts, "metadata") {
        Ok(v) => v,
        Err(e) => {
            return Err(e);
        },
    };
    let app_protocol = match get_text(opts, "app_protocol") {
        Ok(v) => v,
        Err(e) => {
            return Err(e);
        },
    };
    let verify_upstream_tls = match get_flag(opts, "verify_upstream_tls") {
        Ok(v) => v,
        Err(e) => {
            return Err(e);
        },
    };
    let labels = match get_pairs(opts, "labels") {
        Ok(v) => v,
        Err(e) => {
            return Err(e);
        },
    };
    let b = LabeledListenerBuilder {
        metadata,
        app_protocol,
        verify_upstream_tls,
        labels: match labels {
            Some(l) => l,
            None => Vec::new(),
        },
    };
    proof {
        let o = opts_view(opts@);
        assert(b@.labels =~= pairs_or_empty(o, "labels"@));
        assert(b@ == spec_labeled_view(o));
    }
    Ok(b)
}

/// The session configuration read from a cleaned option set, with the
/// transport environment's token value handed in by the caller.
pub open spec fn spec_session_view(
    o: Seq<(Seq<char>, OptValView)>,
    env_token: Option<Seq<char>>,
) -> SessionBuilderView {
    SessionBuilderView {
        authtoken: text_or_none(o, "authtoken"@),
        use_env_token: flag_or_none(o, "authtoken_from_env"@) == Some(true),
        auth_token_set: text_or_none(o, "authtoken"@) is Some || (flag_or_none(
            o,
            "authtoken_from_env"@,
        ) == Some(true) && (match env_token {
            Some(t) => t.len() > 0,
            None => false,
        })),
        metadata: text_or_none(o, "session_metadata"@),
        server_addr: text_or_none(o, "server_addr"@),
        root_cas: text_or_none(o, "root_cas"@),
        ca_certs: bytes_or_empty(o, "session_ca_cert"@),
        ..spec_session_builder_empty()
    }
}

pub open spec fn spec_session_ok(o: Seq<(Seq<char>, OptValView)>) -> bool {
    &&& spec_get_text(o, "authtoken"@) is Ok
    &&& spec_get_flag(o, "authtoken_from_env"@) is Ok
    &&& spec_get_text(o, "session_metadata"@) is Ok
    &&& spec_get_bytes(o, "session_ca_cert"@) is Ok
    &&& spec_get_text(o, "root_cas"@) is Ok
    &&& spec_get_text(o, "server_addr"@) is Ok
}

/// Configure a session from the session-scoped subset of a cleaned option
/// set. `env_token` is the auth token the transport environment currently
/// holds, read by the caller at its edge.
pub fn configure_session(opts: &Vec<RawOpt>, env_token: Option<String>) -> (r: Result<
    SessionBuilder,
    Error,
>)
    ensures
        r is Ok <==> spec_session_ok(opts_view(opts@)),
        r matches Ok(b) ==> b@ == spec_session_view(opts_view(opts@), opt_text_view(env_token)),
        r matches Err(e) ==> e matches Error::InvalidOptionValue { .. },
{
    let authtoken = match get_text(opts, "authtoken") {
        Ok(v) => v,
        Err(e) => {
            return Err(e);
        },
    };
    let from_env = match get_flag(opts, "authtoken_from_env") {
        Ok(v) => v,
        Err(e) => {
            return Err(e);
        },
    };
    let metadata = match get_text(opts, "session_metadata") {
        Ok(v) => v,
        Err(e) => {
            return Err(e);
        },
    };
    let ca_certs = match get_bytes_list(opts, "session_ca_cert") {
        Ok(v) => v,
        Err(e) => {
            return Err(e);
        },
    };
    let root_cas = match get_text(opts, "root_cas") {
        Ok(v) => v,
        Err(e) => {
            return Err(e);
        },
    };
    let server_addr = match get_text(opts, "server_addr") {
        Ok(v) => v,
        Err(e) => {
            return Err(e);
        },
    };
    let mut b = SessionBuilder::new();
    let use_env = match from_env {
        Some(true) => true,
        _ => false,
    };
    let token_set = match &authtoken {
        Some(_) => true,
        None => match (&env_token, use_env) {
            (Some(t), true) => t.unicode_len() > 0,
            _ => false,
        },
    };
    b.authtoken = authtoken;
    b.use_env_token = use_env;
    b.auth_token_set = token_set;
    b.metadata = metadata;
    b.server_addr = server_addr;
    b.root_cas = root_cas;
    b.ca_certs = match ca_certs {
        Some(l) => l,
        None => Vec::new(),
    };
    proof {
        let o = opts_view(opts@);
        assert(b@.ca_certs =~= bytes_or_empty(o, "session_ca_cert"@));
        assert(b@ == spec_session_view(o, opt_text_view(env_token)));
    }
    Ok(b)
}

/// A connect request, after the loose boundary values were normalized: the
/// fully-schemed forward target, the protocol if one was named, and the
/// cleaned option set.
#[derive(Debug)]
pub struct ConnectRequest {
    pub addr: String,
    pub proto: Option<String>,
    pub options: Vec<RawOpt>,
}

/// Normalize a caller's loose arguments into a connect request: the
/// address argument (or the `addr` option, or the loopback default) is
/// normalized, the protocol argument wins over the `proto` option, and the
/// option set is cleaned of null values and dotted keys.
pub fn connect(addr: Option<&AddrArg>, proto: Option<String>, options: &Vec<RawOpt>) -> (r: Result<
    ConnectRequest,
    Error,
>)
    ensures
        ({
            let cl = spec_clean(opts_view(options@));
            match r {
                Ok(req) => {
                    &&& opts_view(req.options@) == cl
                    &&& req.addr@ == (match addr {
                        Some(a) => spec_normalize(Some(*a)),
                        None => (match text_or_none(cl, "addr"@) {
                            Some(t) => t,
                            None => spec_normalize(None),
                        }),
                    })
                    &&& opt_text_view(req.proto) == (match proto {
                        Some(p) => Some(p@),
                        None => text_or_none(cl, "proto"@),
                    })
                    &&& (addr is None ==> spec_get_text(cl, "addr"@) is Ok)
                    &&& (proto is None ==> spec_get_text(cl, "proto"@) is Ok)
                },
                Err(e) => {
                    &&& e matches Error::InvalidOptionValue { .. }
                    &&& ((addr is None && spec_get_text(cl, "addr"@) is Err) || (proto is None
                        && spec_get_text(cl, "proto"@) is Err))
                },
            }
        }),
{
    let cleaned = clean_options(options);
    let addr_str: String = match addr {
        Some(a) => normalize(Some(a)),
        None => match get_text(&cleaned, "addr") {
            Ok(Some(t)) => t,
            Ok(None) => normalize(None),
            Err(e) => {
                return Err(e);
            },
        },
    };
    let proto_v: Option<String> = match proto {
        Some(p) => Some(p),
        None => match get_text(&cleaned, "proto") {
            Ok(v) => v,
            Err(e) => {
                return Err(e);
            },
        },
    };
    Ok(ConnectRequest { addr: addr_str, proto: proto_v, options: cleaned })
}

/// Alias of `connect`, kept for callers of the older name.
pub fn forward(addr: Option<&AddrArg>, proto: Option<String>, options: &Vec<RawOpt>) -> (r: Result<
    ConnectRequest,
    Error,
>)
    ensures
        ({
            let cl = spec_clean(opts_view(options@));
            match r {
                Ok(req) => {
                    &&& opts_view(req.options@) == cl
                    &&& req.addr@ == (match addr {
                        Some(a) => spec_normalize(Some(*a)),
                        None => (match text_or_none(cl, "addr"@) {
                            Some(t) => t,
                            None => spec_normalize(None),
                        }),
                    })
                    &&& opt_text_view(req.proto) == (match proto {
                        Some(p) => Some(p@),
                        None => text_or_none(cl, "proto"@),
                    })
                    &&& (addr is None ==> spec_get_text(cl, "addr"@) is Ok)
                    &&& (proto is None ==> spec_get_text(cl, "proto"@) is Ok)
                },
                Err(e) => {
                    &&& e matches Error::InvalidOptionValue { .. }
                    &&& ((addr is None && spec_get_text(cl, "addr"@) is Err) || (proto is None
                        && spec_get_text(cl, "proto"@) is Err))
                },
            }
        }),
{
    connect(addr, proto, options)
}

/// One protocol's configured builder, chosen at dispatch.
#[derive(Debug)]
pub enum EndpointConfig {
    Http(HttpListenerBuilder),
    Tcp(TcpListenerBuilder),
    Tls(TlsListenerBuilder),
    Labeled(LabeledListenerBuilder),
}

/// Everything decided for one connect call: the session configuration when
/// a session must be built (none means the live one is reused), the
/// configured endpoint, and the normalized forward target for the
/// background forwarding task.
#[derive(Debug)]
pub struct ConnectPlan {
    pub session: Option<SessionBuilder>,
    pub endpoint: EndpointConfig,
    pub forward_addr: String,
}

/// The protocol a request dispatches on: "http" unless one was named.
pub open spec fn spec_proto_of(proto: Option<String>) -> Seq<char> {
    match proto {
        Some(p) => p@,
        None => "http"@,
    }
}

/// Whether a connect call must build a session: none is live, or the
/// caller forces a new one.
pub open spec fn spec_needs_session(has_session: bool, o: Seq<(Seq<char>, OptValView)>) -> bool {
    !has_session || flag_or_none(o, "force_new_session"@) == Some(true)
}

/// Decide everything for one connect call, eagerly and before any remote
/// call: whether to build a session and with what configuration, which
/// protocol builder to use and how to fill it, and where forwarding will
/// go. An unknown protocol string is rejected at dispatch.
#[verifier::rlimit(60)]
pub fn do_connect(has_session: bool, req: &ConnectRequest, env_token: Option<String>) -> (r:
    Result<ConnectPlan, Error>)
    ensures
        ({
            let o = opts_view(req.options@);
            let pv = spec_proto_of(req.proto);
            let known = pv == "http"@ || pv == "tcp"@ || pv == "tls"@ || pv == "labeled"@;
            match r {
                Ok(plan) => {
                    &&& spec_get_flag(o, "force_new_session"@) is Ok
                    &&& plan.forward_addr@ == req.addr@
                    &&& (plan.session is Some <==> spec_needs_session(has_session, o))
                    &&& (plan.session matches Some(b) ==> b@ == spec_session_view(
                        o,
                        opt_text_view(env_token),
                    ))
                    &&& (pv == "http"@ ==> (plan.endpoint matches EndpointConfig::Http(b) && b@
                        == spec_http_view(o)))
                    &&& (pv == "tcp"@ ==> (plan.endpoint matches EndpointConfig::Tcp(b) && b@
                        == spec_tcp_view(o)))
                    &&& (pv == "tls"@ ==> (plan.endpoint matches EndpointConfig::Tls(b) && b@
                        == spec_tls_view(o)))
                    &&& (pv == "labeled"@ ==> (plan.endpoint matches EndpointConfig::Labeled(b)
                        && b@ == spec_labeled_view(o)))
                    &&& known
                },
                Err(e) => {
                    ||| spec_get_flag(o, "force_new_session"@) is Err
                    ||| (spec_needs_session(has_session, o) && !spec_session_ok(o))
                    ||| (pv == "http"@ && !spec_http_ok(o))
                    ||| (pv == "tcp"@ && !spec_tcp_ok(o))
                    ||| (pv == "tls"@ && !spec_tls_ok(o))
                    ||| (pv == "labeled"@ && !spec_labeled_ok(o))
                    ||| !known
                },
            }
        }),
        ({
            let o = opts_view(req.options@);
            let pv = spec_proto_of(req.proto);
            let known = pv == "http"@ || pv == "tcp"@ || pv == "tls"@ || pv == "labeled"@;
            (spec_get_flag(o, "force_new_session"@) is Ok && (spec_needs_session(has_session, o)
                ==> spec_session_ok(o)) && !known) ==> (r matches Err(e) && (e matches
                Error::UnsupportedProtocol { proto: p } && p@ == pv))
        }),
{
    proof {
        reveal_strlit("http");
        reveal_strlit("tcp");
        reveal_strlit("tls");
        reveal_strlit("labeled");
        assert("tcp"@[1] == 'c' && "tls"@[1] == 'l');
        assert("http"@.len() == 4 && "tcp"@.len() == 3 && "tls"@.len() == 3 && "labeled"@.len()
            == 7);
    }
    let force_new = match get_flag(&req.options, "force_new_session") {
        Ok(Some(b)) => b,
        Ok(None) => false,
        Err(e) => {
            return Err(e);
        },
    };
    let session: Option<SessionBuilder> = if !has_session || force_new {
        match configure_session(&req.options, env_token) {
            Ok(b) => Some(b),
            Err(e) => {
                return Err(e);
            },
        }
    } else {
        None
    };
    let proto_str: String = match &req.proto {
        Some(p) => p.clone(),
        None => "http".to_owned(),
    };
    let endpoint: EndpointConfig = if string_eq(&proto_str, &"http".to_owned()) {
        match http_endpoint(&req.options) {
            Ok(b) => EndpointConfig::Http(b),
            Err(e) => {
                return Err(e);
            },
        }
    } else if string_eq(&proto_str, &"tcp".to_owned()) {
        match tcp_endpoint(&req.options) {
            Ok(b) => EndpointConfig::Tcp(b),
            Err(e) => {
                return Err(e);
            },
        }
    } else if string_eq(&proto_str, &"tls".to_owned()) {
        match tls_endpoint(&req.options) {
            Ok(b) => EndpointConfig::Tls(b),
            Err(e) => {
                return Err(e);
            },
        }
    } else if string_eq(&proto_str, &"labeled".to_owned()) {
        match labeled_listener(&req.options) {
            Ok(b) => EndpointConfig::Labeled(b),
            Err(e) => {
                return Err(e);
            },
        }
    } else {
        return Err(Error::UnsupportedProtocol { proto: proto_str });
    };
    Ok(ConnectPlan { session, endpoint, forward_addr: req.addr.clone() })
}

/// The process-wide state behind the convenience flow, held as an owned,
/// injectable component: the listener registry, the socket cache, the
/// session singleton, and the stored default auth token. A process keeps
/// one default instance; tests may hold isolated ones.
#[derive(Debug)]
pub struct Agent {
    pub registry: ListenerRegistry,
    pub sockets: SocketCache,
    pub session: Option<Session>,
    pub default_auth: Option<String>,
}

impl Agent {
    pub open spec fn wf(&self) -> bool {
        self.registry.wf() && self.sockets.wf()
    }

    /// A fresh agent: nothing registered, no session.
    pub fn new() -> (r: Self)
        ensures
            r.wf(),
            r.registry@ =~= Seq::<crate::registry::RecordView>::empty(),
            r.sockets@ =~= Seq::<(Seq<char>, crate::socket::SocketView)>::empty(),
            r.session is None,
            r.default_auth is None,
    {
        Agent {
            registry: ListenerRegistry::new(),
            sockets: SocketCache::new(),
            session: None,
            default_auth: None,
        }
    }

    /// Whether the singleton session slot is filled.
    pub fn has_session(&self) -> (r: bool)
        ensures
            r == (self.session is Some),
    {
        match &self.session {
            Some(_) => true,
            None => false,
        }
    }

    /// Store the session the transport has established; replaces any
    /// earlier one.
    pub fn session_ready(&mut self, session: Session)
        ensures
            final(self).session matches Some(s) && s.id@ == session.id@,
            final(self).registry == old(self).registry,
            final(self).sockets == old(self).sockets,
            final(self).default_auth == old(self).default_auth,
    {
        self.session = Some(session);
    }

    /// Clear the session singleton; done by the close-all path once every
    /// listener is torn down.
    pub fn clear_session(&mut self)
        ensures
            final(self).session is None,
            final(self).registry == old(self).registry,
            final(self).sockets == old(self).sockets,
            final(self).default_auth == old(self).default_auth,
    {
        self.session = None;
    }

    /// A successful remote listen call produced this record: retain it and
    /// hand the caller its read-only handle. The record stays until an
    /// explicit close, whatever happens to the handle.
    pub fn listen_done(&mut self, rec: ListenerRecord) -> (r: Listener)
        requires
            old(self).wf(),
            !contains_id(old(self).registry@, rec@.id),
        ensures
            final(self).wf(),
            final(self).registry@ =~= old(self).registry@.push(rec@),
            spec_lookup(final(self).registry@, rec@.id) == Some(rec@),
            r@ == spec_handle_of(rec@),
            final(self).sockets == old(self).sockets,
            final(self).session == old(self).session,
            final(self).default_auth == old(self).default_auth,
    {
        let handle = Listener::from_record(&rec);
        self.registry.insert(rec);
        handle
    }

    /// Plan a disconnect: the ids to close remotely, all of them when no
    /// url is given, else those backing that url. Collected before any
    /// remote call, so no registry borrow spans the round trips.
    pub fn disconnect(&self, url: Option<&String>) -> (r: Vec<String>)
        ensures
            r@.map_values(|s: String| s@) =~= spec_close_targets(
                self.registry@,
                match url {
                    Some(u) => Some(u@),
                    None => None,
                },
            ),
    {
        crate::listener::close_url_targets(&self.registry, url)
    }

    /// Plan a full shutdown: close every listener. The session singleton
    /// is cleared by `clear_session` once the closes have been confirmed.
    pub fn kill(&self) -> (r: Vec<String>)
        ensures
            r@.map_values(|s: String| s@) =~= spec_close_targets(self.registry@, None),
    {
        self.disconnect(None)
    }

    /// A remote close for `id` has completed: purge the local record and
    /// socket whatever the remote result was, and report a remote failure
    /// without letting removal mask it. The first component is the cached
    /// socket capability, handed back on every path so that the caller
    /// closes it exactly once.
    pub fn close_confirmed(&mut self, id: &String, rpc: &crate::listener::RpcOutcome) -> (r: (
        Option<crate::socket::SocketHandle>,
        Result<(), Error>,
    ))
        requires
            old(self).wf(),
        ensures
            final(self).wf(),
            final(self).registry@ =~= crate::registry::spec_remove(old(self).registry@, id@),
            final(self).sockets@ =~= crate::socket::cache_remove(old(self).sockets@, id@),
            !contains_id(final(self).registry@, id@),
            r.0 is Some <==> crate::socket::cache_contains(old(self).sockets@, id@),
            r.0 matches Some(h) ==> crate::socket::cache_lookup(old(self).sockets@, id@) == Some(
                h@,
            ),
            r.1 is Ok <==> rpc is Done,
            final(self).session == old(self).session,
            final(self).default_auth == old(self).default_auth,
    {
        crate::listener::close_finish(&mut self.registry, &mut self.sockets, id, rpc)
    }
}

} // verus!
