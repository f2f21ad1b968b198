//! Listener builders: one plain configuration struct per protocol over a
//! small closed set of variants (HTTP, TCP, TLS, labeled), plus the option
//! block they share. Builders are pure accumulation - no remote call
//! happens until the configuration is handed to the transport - and every
//! setter's contract states the exact field it writes.

use vstd::prelude::*;
use vstd::string::*;

use crate::text::{bytes_view, pairs_view, texts_view};

verus! {

/// Mathematical view of the shared option block.
pub ghost struct CommonView {
    pub metadata: Option<Seq<char>>,
    pub allow_cidr: Seq<Seq<char>>,
    pub deny_cidr: Seq<Seq<char>>,
    pub proxy_proto: Option<Seq<char>>,
    pub forwards_to: Option<Seq<char>>,
    pub verify_upstream_tls: Option<bool>,
    pub traffic_policy: Option<Seq<char>>,
}

/// The options shared by every URL-style listener builder.
#[derive(Debug)]
pub struct CommonOptions {
    pub metadata: Option<String>,
    pub allow_cidr: Vec<String>,
    pub deny_cidr: Vec<String>,
    pub proxy_proto: Option<String>,
    pub forwards_to: Option<String>,
    pub verify_upstream_tls: Option<bool>,
    pub traffic_policy: Option<String>,
}

pub open spec fn opt_text_view(o: Option<String>) -> Option<Seq<char>> {
    match o {
        Some(s) => Some(s@),
        None => None,
    }
}

impl View for CommonOptions {
    type V = CommonView;

    open spec fn view(&self) -> CommonView {
        CommonView {
            metadata: opt_text_view(self.metadata),
            allow_cidr: texts_view(self.allow_cidr@),
            deny_cidr: texts_view(self.deny_cidr@),
            proxy_proto: opt_text_view(self.proxy_proto),
            forwards_to: opt_text_view(self.forwards_to),
            verify_upstream_tls: self.verify_upstream_tls,
            traffic_policy: opt_text_view(self.traffic_policy),
        }
    }
}

impl CommonOptions {
    pub fn new() -> (r: Self)
        ensures
            r@ == (CommonView {
                metadata: None,
                allow_cidr: Seq::empty(),
                deny_cidr: Seq::empty(),
                proxy_proto: None,
                forwards_to: None,
                verify_upstream_tls: None,
                traffic_policy: None,
            }),
    {
        let r = CommonOptions {
            metadata: None,
            allow_cidr: Vec::new(),
            deny_cidr: Vec::new(),
            proxy_proto: None,
            forwards_to: None,
            verify_upstream_tls: None,
            traffic_policy: None,
        };
        proof {
            assert(r@.allow_cidr =~= Seq::<Seq<char>>::empty());
            assert(r@.deny_cidr =~= Seq::<Seq<char>>::empty());
        }
        r
    }

    /// Listener-specific opaque metadata, viewable remotely.
    pub fn metadata(&mut self, metadata: String)
        ensures
            final(self)@ == (CommonView { metadata: Some(metadata@), ..old(self)@ }),
    {
        self.metadata = Some(metadata);
    }

    /// Allow connections originating from this CIDR range; callable
    /// repeatedly to add ranges.
    pub fn allow_cidr(&mut self, cidr: String)
        ensures
            final(self)@ == (CommonView {
                allow_cidr: old(self)@.allow_cidr.push(cidr@),
                ..old(self)@
            }),
    {
        self.allow_cidr.push(cidr);
        proof {
            assert(self@.allow_cidr =~= old(self)@.allow_cidr.push(cidr@));
        }
    }

    /// Deny connections originating from this CIDR range; callable
    /// repeatedly to add ranges.
    pub fn deny_cidr(&mut self, cidr: String)
        ensures
            final(self)@ == (CommonView {
                deny_cidr: old(self)@.deny_cidr.push(cidr@),
                ..old(self)@
            }),
    {
        self.deny_cidr.push(cidr);
        proof {
            assert(self@.deny_cidr =~= old(self)@.deny_cidr.push(cidr@));
        }
    }

    /// The PROXY protocol version to use, or empty for none.
    pub fn proxy_proto(&mut self, proxy_proto: String)
        ensures
            final(self)@ == (CommonView { proxy_proto: Some(proxy_proto@), ..old(self)@ }),
    {
        self.proxy_proto = Some(proxy_proto);
    }

    /// The human-readable backend description, shown remotely.
    pub fn forwards_to(&mut self, forwards_to: String)
        ensures
            final(self)@ == (CommonView { forwards_to: Some(forwards_to@), ..old(self)@ }),
    {
        self.forwards_to = Some(forwards_to);
    }

    /// Whether to verify the upstream server's TLS certificate.
    pub fn verify_upstream_tls(&mut self, verify: bool)
        ensures
            final(self)@ == (CommonView { verify_upstream_tls: Some(verify), ..old(self)@ }),
    {
        self.verify_upstream_tls = Some(verify);
    }

    /// Traffic policy configuration attached to the listener.
    pub fn traffic_policy(&mut self, policy_config: String)
        ensures
            final(self)@ == (CommonView { traffic_policy: Some(policy_config@), ..old(self)@ }),
    {
        self.traffic_policy = Some(policy_config);
    }

    /// Alias of `traffic_policy`, kept for older callers.
    pub fn policy(&mut self, policy_config: String)
        ensures
            final(self)@ == (CommonView { traffic_policy: Some(policy_config@), ..old(self)@ }),
    {
        self.traffic_policy = Some(policy_config);
    }
}

/// OAuth configuration for an HTTP listener.
#[derive(Debug)]
pub struct OauthOptions {
    pub provider: String,
    pub allow_emails: Vec<String>,
    pub allow_domains: Vec<String>,
    pub scopes: Vec<String>,
    pub client_id: Option<String>,
    pub client_secret: Option<String>,
}

pub ghost struct OauthView {
    pub provider: Seq<char>,
    pub allow_emails: Seq<Seq<char>>,
    pub allow_domains: Seq<Seq<char>>,
    pub scopes: Seq<Seq<char>>,
    pub client_id: Option<Seq<char>>,
    pub client_secret: Option<Seq<char>>,
}

impl View for OauthOptions {
    type V = OauthView;

    open spec fn view(&self) -> OauthView {
        OauthView {
            provider: self.provider@,
            allow_emails: texts_view(self.allow_emails@),
            allow_domains: texts_view(self.allow_domains@),
            scopes: texts_view(self.scopes@),
            client_id: opt_text_view(self.client_id),
            client_secret: opt_text_view(self.client_secret),
        }
    }
}

/// OpenID Connect configuration for an HTTP listener: issuer, client id
/// and client secret are all required together.
#[derive(Debug)]
pub struct OidcOptions {
    pub issuer_url: String,
    pub client_id: String,
    pub client_secret: String,
    pub allow_emails: Vec<String>,
    pub allow_domains: Vec<String>,
    pub scopes: Vec<String>,
}

pub ghost struct OidcView {
    pub issuer_url: Seq<char>,
    pub client_id: Seq<char>,
    pub client_secret: Seq<char>,
    pub allow_emails: Seq<Seq<char>>,
    pub allow_domains: Seq<Seq<char>>,
    pub scopes: Seq<Seq<char>>,
}

impl View for OidcOptions {
    type V = OidcView;

    open spec fn view(&self) -> OidcView {
        OidcView {
            issuer_url: self.issuer_url@,
            client_id: self.client_id@,
            client_secret: self.client_secret@,
            allow_emails: texts_view(self.allow_emails@),
            allow_domains: texts_view(self.allow_domains@),
            scopes: texts_view(self.scopes@),
        }
    }
}

/// Mathematical view of the HTTP listener builder.
pub ghost struct HttpBuilderView {
    pub common: CommonView,
    pub scheme: Option<Seq<char>>,
    pub domain: Option<Seq<char>>,
    pub app_protocol: Option<Seq<char>>,
    pub mutual_tlsca: Seq<Seq<u8>>,
    pub compression: bool,
    pub websocket_tcp_conversion: bool,
    pub request_headers: Seq<(Seq<char>, Seq<char>)>,
    pub response_headers: Seq<(Seq<char>, Seq<char>)>,
    pub remove_request_headers: Seq<Seq<char>>,
    pub remove_response_headers: Seq<Seq<char>>,
    pub basic_auth: Seq<(Seq<char>, Seq<char>)>,
    pub allow_user_agent: Seq<Seq<char>>,
    pub deny_user_agent: Seq<Seq<char>>,
    pub oauth: Option<OauthView>,
    pub oidc: Option<OidcView>,
    pub webhook_verification: Option<(Seq<char>, Seq<char>)>,
}

/// The builder for a listener backing an HTTP endpoint.
#[derive(Debug)]
pub struct HttpListenerBuilder {
    pub common: CommonOptions,
    pub scheme: Option<String>,
    pub domain: Option<String>,
    pub app_protocol: Option<String>,
    pub mutual_tlsca: Vec<Vec<u8>>,
    pub compression: bool,
    pub websocket_tcp_conversion: bool,
    pub request_headers: Vec<(String, String)>,
    pub response_headers: Vec<(String, String)>,
    pub remove_request_headers: Vec<String>,
    pub remove_response_headers: Vec<String>,
    pub basic_auth: Vec<(String, String)>,
    pub allow_user_agent: Vec<String>,
    pub deny_user_agent: Vec<String>,
    pub oauth: Option<OauthOptions>,
    pub oidc: Option<OidcOptions>,
    pub webhook_verification: Option<(String, String)>,
}

impl View for HttpListenerBuilder {
    type V = HttpBuilderView;

    open spec fn view(&self) -> HttpBuilderView {
        HttpBuilderView {
            common: self.common@,
            scheme: opt_text_view(self.scheme),
            domain: opt_text_view(self.domain),
            app_protocol: opt_text_view(self.app_protocol),
            mutual_tlsca: bytes_view(self.mutual_tlsca@),
            compression: self.compression,
            websocket_tcp_conversion: self.websocket_tcp_conversion,
            request_headers: pairs_view(self.request_headers@),
            response_headers: pairs_view(self.response_headers@),
            remove_request_headers: texts_view(self.remove_request_headers@),
            remove_response_headers: texts_view(self.remove_response_headers@),
            basic_auth: pairs_view(self.basic_auth@),
            allow_user_agent: texts_view(self.allow_user_agent@),
            deny_user_agent: texts_view(self.deny_user_agent@),
            oauth: match self.oauth {
                Some(o) => Some(o@),
                None => None,
            },
            oidc: match self.oidc {
                Some(o) => Some(o@),
                None => None,
            },
            webhook_verification: match self.webhook_verification {
                Some(p) => Some((p.0@, p.1@)),
                None => None,
            },
        }
    }
}

/// The view of a freshly constructed HTTP builder.
pub open spec fn spec_http_builder_empty() -> HttpBuilderView {
    HttpBuilderView {
        common: CommonView {
            metadata: None,
            allow_cidr: Seq::empty(),
            deny_cidr: Seq::empty(),
            proxy_proto: None,
            forwards_to: None,
            verify_upstream_tls: None,
            traffic_policy: None,
        },
        scheme: None,
        domain: None,
        app_protocol: None,
        mutual_tlsca: Seq::empty(),
        compression: false,
        websocket_tcp_conversion: false,
        request_headers: Seq::empty(),
        response_headers: Seq::empty(),
        remove_request_headers: Seq::empty(),
        remove_response_headers: Seq::empty(),
        basic_auth: Seq::empty(),
        allow_user_agent: Seq::empty(),
        deny_user_agent: Seq::empty(),
        oauth: None,
        oidc: None,
        webhook_verification: None,
    }
}

impl HttpListenerBuilder {
    pub fn new() -> (r: Self)
        ensures
            r@ == spec_http_builder_empty(),
    {
        let r = HttpListenerBuilder {
            common: CommonOptions::new(),
            scheme: None,
            domain: None,
            app_protocol: None,
            mutual_tlsca: Vec::new(),
            compression: false,
            websocket_tcp_conversion: false,
            request_headers: Vec::new(),
            response_headers: Vec::new(),
            remove_request_headers: Vec::new(),
            remove_response_headers: Vec::new(),
            basic_auth: Vec::new(),
            allow_user_agent: Vec::new(),
            deny_user_agent: Vec::new(),
            oauth: None,
            oidc: None,
            webhook_verification: None,
        };
        proof {
            assert(r@.mutual_tlsca =~= Seq::<Seq<u8>>::empty());
            assert(r@.request_headers =~= Seq::<(Seq<char>, Seq<char>)>::empty());
            assert(r@.response_headers =~= Seq::<(Seq<char>, Seq<char>)>::empty());
            assert(r@.remove_request_headers =~= Seq::<Seq<char>>::empty());
            assert(r@.remove_response_headers =~= Seq::<Seq<char>>::empty());
            assert(r@.basic_auth =~= Seq::<(Seq<char>, Seq<char>)>::empty());
            assert(r@.allow_user_agent =~= Seq::<Seq<char>>::empty());
            assert(r@.deny_user_agent =~= Seq::<Seq<char>>::empty());
        }
        r
    }
}

/// Mathematical view of the TCP listener builder.
pub ghost struct TcpBuilderView {
    pub common: CommonView,
    pub remote_addr: Option<Seq<char>>,
    pub pooling_enabled: Option<bool>,
}

/// The builder for a listener backing a TCP endpoint.
#[derive(Debug)]
pub struct TcpListenerBuilder {
    pub common: CommonOptions,
    pub remote_addr: Option<String>,
    pub pooling_enabled: Option<bool>,
}

impl View for TcpListenerBuilder {
    type V = TcpBuilderView;

    open spec fn view(&self) -> TcpBuilderView {
        TcpBuilderView {
            common: self.common@,
            remote_addr: opt_text_view(self.remote_addr),
            pooling_enabled: self.pooling_enabled,
        }
    }
}

/// The view of a freshly constructed TCP builder.
pub open spec fn spec_tcp_builder_empty() -> TcpBuilderView {
    TcpBuilderView {
        common: CommonView {
            metadata: None,
            allow_cidr: Seq::empty(),
            deny_cidr: Seq::empty(),
            proxy_proto: None,
            forwards_to: None,
            verify_upstream_tls: None,
            traffic_policy: None,
        },
        remote_addr: None,
        pooling_enabled: None,
    }
}

impl TcpListenerBuilder {
    pub fn new() -> (r: Self)
        ensures
            r@ == spec_tcp_builder_empty(),
    {
        TcpListenerBuilder { common: CommonOptions::new(), remote_addr: None, pooling_enabled: None }
    }
}

/// Mathematical view of the TLS listener builder.
pub ghost struct TlsBuilderView {
    pub common: CommonView,
    pub domain: Option<Seq<char>>,
    pub mutual_tlsca: Seq<Seq<u8>>,
    pub termination: Option<(Seq<u8>, Seq<u8>)>,
}

/// The builder for a listener backing a TLS endpoint.
#[derive(Debug)]
pub struct TlsListenerBuilder {
    pub common: CommonOptions,
    pub domain: Option<String>,
    pub mutual_tlsca: Vec<Vec<u8>>,
    pub termination: Option<(Vec<u8>, Vec<u8>)>,
}

impl View for TlsListenerBuilder {
    type V = TlsBuilderView;

    open spec fn view(&self) -> TlsBuilderView {
        TlsBuilderView {
            common: self.common@,
            domain: opt_text_view(self.domain),
            mutual_tlsca: bytes_view(self.mutual_tlsca@),
            termination: match self.termination {
                Some(p) => Some((p.0@, p.1@)),
                None => None,
            },
        }
    }
}

/// The view of a freshly constructed TLS builder.
pub open spec fn spec_tls_builder_empty() -> TlsBuilderView {
    TlsBuilderView {
        common: CommonView {
            metadata: None,
            allow_cidr: Seq::empty(),
            deny_cidr: Seq::empty(),
            proxy_proto: None,
            forwards_to: None,
            verify_upstream_tls: None,
            traffic_policy: None,
        },
        domain: None,
        mutual_tlsca: Seq::empty(),
        termination: None,
    }
}

impl TlsListenerBuilder {
    pub fn new() -> (r: Self)
        ensures
            r@ == spec_tls_builder_empty(),
    {
        let r = TlsListenerBuilder {
            common: CommonOptions::new(),
            domain: None,
            mutual_tlsca: Vec::new(),
            termination: None,
        };
        proof {
            assert(r@.mutual_tlsca =~= Seq::<Seq<u8>>::empty());
        }
        r
    }
}

/// Mathematical view of the labeled listener builder.
pub ghost struct LabeledBuilderView {
    pub metadata: Option<Seq<char>>,
    pub app_protocol: Option<Seq<char>>,
    pub verify_upstream_tls: Option<bool>,
    pub labels: Seq<(Seq<char>, Seq<char>)>,
}

/// The builder for a labeled listener, routed by labels instead of a URL.
#[derive(Debug)]
pub struct LabeledListenerBuilder {
    pub metadata: Option<String>,
    pub app_protocol: Option<String>,
    pub verify_upstream_tls: Option<bool>,
    pub labels: Vec<(String, String)>,
}

impl View for LabeledListenerBuilder {
    type V = LabeledBuilderView;

    open spec fn view(&self) -> LabeledBuilderView {
        LabeledBuilderView {
            metadata: opt_text_view(self.metadata),
            app_protocol: opt_text_view(self.app_protocol),
            verify_upstream_tls: self.verify_upstream_tls,
            labels: pairs_view(self.labels@),
        }
    }
}

/// The view of a freshly constructed labeled builder.
pub open spec fn spec_labeled_builder_empty() -> LabeledBuilderView {
    LabeledBuilderView {
        metadata: None,
        app_protocol: None,
        verify_upstream_tls: None,
        labels: Seq::empty(),
    }
}

impl LabeledListenerBuilder {
    pub fn new() -> (r: Self)
        ensures
            r@ == spec_labeled_builder_empty(),
    {
        let r = LabeledListenerBuilder {
            metadata: None,
            app_protocol: None,
            verify_upstream_tls: None,
            labels: Vec::new(),
        };
        proof {
            assert(r@.labels =~= Seq::<(Seq<char>, Seq<char>)>::empty());
        }
        r
    }

    /// Listener-specific opaque metadata.
    pub fn metadata(&mut self, metadata: String)
        ensures
            final(self)@ == (LabeledBuilderView { metadata: Some(metadata@), ..old(self)@ }),
    {
        self.metadata = Some(metadata);
    }

    /// The L7 application protocol for this listener, "http1" or "http2".
    pub fn app_protocol(&mut self, app_protocol: String)
        ensures
            final(self)@ == (LabeledBuilderView {
                app_protocol: Some(app_protocol@),
                ..old(self)@
            }),
    {
        self.app_protocol = Some(app_protocol);
    }

    /// Whether to verify the upstream server's TLS certificate.
    pub fn verify_upstream_tls(&mut self, verify: bool)
        ensures
            final(self)@ == (LabeledBuilderView {
                verify_upstream_tls: Some(verify),
                ..old(self)@
            }),
    {
        self.verify_upstream_tls = Some(verify);
    }

    /// Add one label, value pair; the relay routes by the full label set.
    pub fn label(&mut self, label: String, value: String)
        ensures
            final(self)@ == (LabeledBuilderView {
                labels: old(self)@.labels.push((label@, value@)),
                ..old(self)@
            }),
    {
        self.labels.push((label, value));
        proof {
            assert(self@.labels =~= old(self)@.labels.push((label@, value@)));
        }
    }
}

} // verus!
