//! HTTP-specific configuration of the listener builder: headers, agents,
//! authentication modules, and webhook verification. Every setter states
//! exactly which field it writes and that the rest of the builder is kept.

use vstd::prelude::*;
use vstd::string::*;

use crate::listener_builder::{
    HttpBuilderView, HttpListenerBuilder, OauthOptions, OidcOptions,
};
use crate::text::texts_view;

verus! {

impl HttpListenerBuilder {
    /// The L7 protocol for this endpoint, "http1" or "http2".
    pub fn app_protocol(&mut self, app_protocol: String)
        ensures
            final(self)@ == (HttpBuilderView { app_protocol: Some(app_protocol@), ..old(self)@ }),
    {
        self.app_protocol = Some(app_protocol);
    }

    /// The scheme this endpoint should use, "HTTP" or "HTTPS".
    pub fn scheme(&mut self, scheme: String)
        ensures
            final(self)@ == (HttpBuilderView { scheme: Some(scheme@), ..old(self)@ }),
    {
        self.scheme = Some(scheme);
    }

    /// The domain to request for this endpoint.
    pub fn domain(&mut self, domain: String)
        ensures
            final(self)@ == (HttpBuilderView { domain: Some(domain@), ..old(self)@ }),
    {
        self.domain = Some(domain);
    }

    /// Add a certificate (PEM) for mutual TLS client authentication.
    pub fn mutual_tlsca(&mut self, mutual_tlsca: Vec<u8>)
        ensures
            final(self)@ == (HttpBuilderView {
                mutual_tlsca: old(self)@.mutual_tlsca.push(mutual_tlsca@),
                ..old(self)@
            }),
    {
        self.mutual_tlsca.push(mutual_tlsca);
        proof {
            assert(self@.mutual_tlsca =~= old(self)@.mutual_tlsca.push(mutual_tlsca@));
        }
    }

    /// Enable response compression.
    pub fn compression(&mut self)
        ensures
            final(self)@ == (HttpBuilderView { compression: true, ..old(self)@ }),
    {
        self.compression = true;
    }

    /// Convert incoming websocket connections to TCP-like streams.
    pub fn websocket_tcp_conversion(&mut self)
        ensures
            final(self)@ == (HttpBuilderView { websocket_tcp_conversion: true, ..old(self)@ }),
    {
        self.websocket_tcp_conversion = true;
    }

    /// Add a header to every request reaching this endpoint.
    pub fn request_header(&mut self, name: String, value: String)
        ensures
            final(self)@ == (HttpBuilderView {
                request_headers: old(self)@.request_headers.push((name@, value@)),
                ..old(self)@
            }),
    {
        self.request_headers.push((name, value));
        proof {
            assert(self@.request_headers =~= old(self)@.request_headers.push((name@, value@)));
        }
    }

    /// Add a header to every response leaving this endpoint.
    pub fn response_header(&mut self, name: String, value: String)
        ensures
            final(self)@ == (HttpBuilderView {
                response_headers: old(self)@.response_headers.push((name@, value@)),
                ..old(self)@
            }),
    {
        self.response_headers.push((name, value));
        proof {
            assert(self@.response_headers =~= old(self)@.response_headers.push((name@, value@)));
        }
    }

    /// Remove a header from requests reaching this endpoint.
    pub fn remove_request_header(&mut self, name: String)
        ensures
            final(self)@ == (HttpBuilderView {
                remove_request_headers: old(self)@.remove_request_headers.push(name@),
                ..old(self)@
            }),
    {
        self.remove_request_headers.push(name);
        proof {
            assert(self@.remove_request_headers =~= old(self)@.remove_request_headers.push(
                name@,
            ));
        }
    }

    /// Remove a header from responses leaving this endpoint.
    pub fn remove_response_header(&mut self, name: String)
        ensures
            final(self)@ == (HttpBuilderView {
                remove_response_headers: old(self)@.remove_response_headers.push(name@),
                ..old(self)@
            }),
    {
        self.remove_response_headers.push(name);
        proof {
            assert(self@.remove_response_headers =~= old(self)@.remove_response_headers.push(
                name@,
            ));
        }
    }

    /// Add one username, password credential pair for basic authentication.
    pub fn basic_auth(&mut self, username: String, password: String)
        ensures
            final(self)@ == (HttpBuilderView {
                basic_auth: old(self)@.basic_auth.push((username@, password@)),
                ..old(self)@
            }),
    {
        self.basic_auth.push((username, password));
        proof {
            assert(self@.basic_auth =~= old(self)@.basic_auth.push((username@, password@)));
        }
    }

    /// Add a regular expression matching User-Agents to allow.
    pub fn allow_user_agent(&mut self, regex: String)
        ensures
            final(self)@ == (HttpBuilderView {
                allow_user_agent: old(self)@.allow_user_agent.push(regex@),
                ..old(self)@
            }),
    {
        self.allow_user_agent.push(regex);
        proof {
            assert(self@.allow_user_agent =~= old(self)@.allow_user_agent.push(regex@));
        }
    }

    /// Add a regular expression matching User-Agents to deny.
    pub fn deny_user_agent(&mut self, regex: String)
        ensures
            final(self)@ == (HttpBuilderView {
                deny_user_agent: old(self)@.deny_user_agent.push(regex@),
                ..old(self)@
            }),
    {
        self.deny_user_agent.push(regex);
        proof {
            assert(self@.deny_user_agent =~= old(self)@.deny_user_agent.push(regex@));
        }
    }

    /// OAuth configuration: provider, optional allow lists and scopes, and
    /// the optional client credentials that scopes require.
    pub fn oauth(
        &mut self,
        provider: String,
        allow_emails: Option<Vec<String>>,
        allow_domains: Option<Vec<String>>,
        scopes: Option<Vec<String>>,
        client_id: Option<String>,
        client_secret: Option<String>,
    )
        ensures
            final(self)@ == (HttpBuilderView {
                oauth: Some(
                    spec_oauth_view(
                        provider@,
                        match allow_emails {
                            Some(l) => texts_view(l@),
                            None => Seq::empty(),
                        },
                        match allow_domains {
                            Some(l) => texts_view(l@),
                            None => Seq::empty(),
                        },
                        match scopes {
                            Some(l) => texts_view(l@),
                            None => Seq::empty(),
                        },
                        match client_id {
                            Some(s) => Some(s@),
                            None => None,
                        },
                        match client_secret {
                            Some(s) => Some(s@),
                            None => None,
                        },
                    ),
                ),
                ..old(self)@
            }),
    {
        let opts = OauthOptions {
            provider,
            allow_emails: match allow_emails {
                Some(l) => l,
                None => Vec::new(),
            },
            allow_domains: match allow_domains {
                Some(l) => l,
                None => Vec::new(),
            },
            scopes: match scopes {
                Some(l) => l,
                None => Vec::new(),
            },
            client_id,
            client_secret,
        };
        proof {
            assert(opts@.allow_emails =~= (match allow_emails {
                Some(l) => texts_view(l@),
                None => Seq::empty(),
            }));
            assert(opts@.allow_domains =~= (match allow_domains {
                Some(l) => texts_view(l@),
                None => Seq::empty(),
            }));
            assert(opts@.scopes =~= (match scopes {
                Some(l) => texts_view(l@),
                None => Seq::empty(),
            }));
        }
        self.oauth = Some(opts);
    }

    /// OpenID Connect configuration: issuer URL and both client credentials
    /// are required; allow lists and scopes are optional.
    pub fn oidc(
        &mut self,
        issuer_url: String,
        client_id: String,
        client_secret: String,
        allow_emails: Option<Vec<String>>,
        allow_domains: Option<Vec<String>>,
        scopes: Option<Vec<String>>,
    )
        ensures
            final(self)@ == (HttpBuilderView {
                oidc: Some(
                    spec_oidc_view(
                        issuer_url@,
                        client_id@,
                        client_secret@,
                        match allow_emails {
                            Some(l) => texts_view(l@),
                            None => Seq::empty(),
                        },
                        match allow_domains {
                            Some(l) => texts_view(l@),
                            None => Seq::empty(),
                        },
                        match scopes {
                            Some(l) => texts_view(l@),
                            None => Seq::empty(),
                        },
                    ),
                ),
                ..old(self)@
            }),
    {
        let opts = OidcOptions {
            issuer_url,
            client_id,
            client_secret,
            allow_emails: match allow_emails {
                Some(l) => l,
                None => Vec::new(),
            },
            allow_domains: match allow_domains {
                Some(l) => l,
                None => Vec::new(),
            },
            scopes: match scopes {
                Some(l) => l,
                None => Vec::new(),
            },
        };
        proof {
            assert(opts@.allow_emails =~= (match allow_emails {
                Some(l) => texts_view(l@),
                None => Seq::empty(),
            }));
            assert(opts@.allow_domains =~= (match allow_domains {
                Some(l) => texts_view(l@),
                None => Seq::empty(),
            }));
            assert(opts@.scopes =~= (match scopes {
                Some(l) => texts_view(l@),
                None => Seq::empty(),
            }));
        }
        self.oidc = Some(opts);
    }

    /// Webhook verification configuration: provider and secret together.
    pub fn webhook_verification(&mut self, provider: String, secret: String)
        ensures
            final(self)@ == (HttpBuilderView {
                webhook_verification: Some((provider@, secret@)),
                ..old(self)@
            }),
    {
        self.webhook_verification = Some((provider, secret));
    }
}

/// The OAuth view assembled from the given pieces.
pub open spec fn spec_oauth_view(
    provider: Seq<char>,
    allow_emails: Seq<Seq<char>>,
    allow_domains: Seq<Seq<char>>,
    scopes: Seq<Seq<char>>,
    client_id: Option<Seq<char>>,
    client_secret: Option<Seq<char>>,
) -> crate::listener_builder::OauthView {
    crate::listener_builder::OauthView {
        provider,
        allow_emails,
        allow_domains,
        scopes,
        client_id,
        client_secret,
    }
}

/// The OpenID Connect view assembled from the given pieces.
pub open spec fn spec_oidc_view(
    issuer_url: Seq<char>,
    client_id: Seq<char>,
    client_secret: Seq<char>,
    allow_emails: Seq<Seq<char>>,
    allow_domains: Seq<Seq<char>>,
    scopes: Seq<Seq<char>>,
) -> crate::listener_builder::OidcView {
    crate::listener_builder::OidcView {
        issuer_url,
        client_id,
        client_secret,
        allow_emails,
        allow_domains,
        scopes,
    }
}

} // verus!
