//! The session builder and the session facade. The builder is pure
//! configuration for the control-session transport; handlers are carried as
//! opaque callback tokens. The facade wraps an established session's id and
//! delegates listener bookkeeping to the registry; the remote calls
//! themselves are events performed outside and handed back in.

use vstd::prelude::*;
use vstd::string::*;

use crate::errors::Error;
use crate::listener::{close_begin, close_finish, list_listeners, spec_list, Listener, RpcOutcome};
use crate::listener_builder::{
    opt_text_view, HttpListenerBuilder, LabeledListenerBuilder, TcpListenerBuilder,
    TlsListenerBuilder, spec_http_builder_empty, spec_labeled_builder_empty,
    spec_tcp_builder_empty, spec_tls_builder_empty,
};
use crate::registry::{contains_id, spec_remove, ListenerRegistry};
use crate::socket::{cache_remove, SocketCache, SocketHandle};
use crate::text::bytes_view;

verus! {

/// Store a default auth token for every future session built without one.
pub fn set_auth_token(store: &mut Option<String>, authtoken: String)
    ensures
        *final(store) matches Some(t) && t@ == authtoken@,
{
    *store = Some(authtoken);
}

/// Mathematical view of the session configuration.
pub ghost struct SessionBuilderView {
    pub authtoken: Option<Seq<char>>,
    pub use_env_token: bool,
    pub auth_token_set: bool,
    pub client_type: Seq<char>,
    pub client_version: Seq<char>,
    pub client_comments: Option<Seq<char>>,
    pub heartbeat_interval: Option<u32>,
    pub heartbeat_tolerance: Option<u32>,
    pub metadata: Option<Seq<char>>,
    pub server_addr: Option<Seq<char>>,
    pub root_cas: Option<Seq<char>>,
    pub ca_certs: Seq<Seq<u8>>,
    pub disconnect_handler: Option<u64>,
    pub stop_handler: Option<u64>,
    pub restart_handler: Option<u64>,
    pub update_handler: Option<u64>,
    pub heartbeat_handler: Option<u64>,
}

/// The builder for a control session: write-once configuration handed to
/// the transport when the session is established.
#[derive(Debug)]
pub struct SessionBuilder {
    pub authtoken: Option<String>,
    /// Whether the transport should read the auth token from its
    /// environment when none was given explicitly.
    pub use_env_token: bool,
    /// Whether an auth token is known to be set, explicitly or from the
    /// environment.
    pub auth_token_set: bool,
    pub client_type: String,
    pub client_version: String,
    pub client_comments: Option<String>,
    pub heartbeat_interval: Option<u32>,
    pub heartbeat_tolerance: Option<u32>,
    pub metadata: Option<String>,
    pub server_addr: Option<String>,
    pub root_cas: Option<String>,
    pub ca_certs: Vec<Vec<u8>>,
    pub disconnect_handler: Option<u64>,
    pub stop_handler: Option<u64>,
    pub restart_handler: Option<u64>,
    pub update_handler: Option<u64>,
    pub heartbeat_handler: Option<u64>,
}

impl View for SessionBuilder {
    type V = SessionBuilderView;

    open spec fn view(&self) -> SessionBuilderView {
        SessionBuilderView {
            authtoken: opt_text_view(self.authtoken),
            use_env_token: self.use_env_token,
            auth_token_set: self.auth_token_set,
            client_type: self.client_type@,
            client_version: self.client_version@,
            client_comments: opt_text_view(self.client_comments),
            heartbeat_interval: self.heartbeat_interval,
            heartbeat_tolerance: self.heartbeat_tolerance,
            metadata: opt_text_view(self.metadata),
            server_addr: opt_text_view(self.server_addr),
            root_cas: opt_text_view(self.root_cas),
            ca_certs: bytes_view(self.ca_certs@),
            disconnect_handler: self.disconnect_handler,
            stop_handler: self.stop_handler,
            restart_handler: self.restart_handler,
            update_handler: self.update_handler,
            heartbeat_handler: self.heartbeat_handler,
        }
    }
}

/// The view of a fresh builder: only the client identification is set.
pub open spec fn spec_session_builder_empty() -> SessionBuilderView {
    SessionBuilderView {
        authtoken: None,
        use_env_token: false,
        auth_token_set: false,
        client_type: "ngrok-python"@,
        client_version: "0.1.0"@,
        client_comments: None,
        heartbeat_interval: None,
        heartbeat_tolerance: None,
        metadata: None,
        server_addr: None,
        root_cas: None,
        ca_certs: Seq::empty(),
        disconnect_handler: None,
        stop_handler: None,
        restart_handler: None,
        update_handler: None,
        heartbeat_handler: None,
    }
}

impl SessionBuilder {
    /// The builder's display name.
    pub fn __str__(&self) -> (r: String)
        ensures
            r@ == "ngrok_session_builder"@,
    {
        "ngrok_session_builder".to_owned()
    }

    /// A fresh builder carrying the default client identification.
    pub fn new() -> (r: Self)
        ensures
            r@ == spec_session_builder_empty(),
    {
        let r = SessionBuilder {
            authtoken: None,
            use_env_token: false,
            auth_token_set: false,
            client_type: "ngrok-python".to_owned(),
            client_version: "0.1.0".to_owned(),
            client_comments: None,
            heartbeat_interval: None,
            heartbeat_tolerance: None,
            metadata: None,
            server_addr: None,
            root_cas: None,
            ca_certs: Vec::new(),
            disconnect_handler: None,
            stop_handler: None,
            restart_handler: None,
            update_handler: None,
            heartbeat_handler: None,
        };
        proof {
            assert(r@.ca_certs =~= Seq::<Seq<u8>>::empty());
        }
        r
    }

    /// Authenticate with this explicit auth token.
    pub fn authtoken(&mut self, authtoken: String)
        ensures
            final(self)@ == (SessionBuilderView {
                authtoken: Some(authtoken@),
                auth_token_set: true,
                ..old(self)@
            }),
    {
        self.authtoken = Some(authtoken);
        self.auth_token_set = true;
    }

    /// Authenticate with the transport-side environment's token. The value
    /// currently in that environment is handed in so that the builder can
    /// record whether a token is effectively set.
    pub fn authtoken_from_env(&mut self, env_token: Option<String>)
        ensures
            final(self)@ == (SessionBuilderView {
                use_env_token: true,
                auth_token_set: old(self)@.auth_token_set || (match env_token {
                    Some(t) => t@.len() > 0,
                    None => false,
                }),
                ..old(self)@
            }),
    {
        self.use_env_token = true;
        match env_token {
            Some(t) => {
                if t.unicode_len() > 0 {
                    self.auth_token_set = true;
                }
            },
            None => {},
        }
    }

    /// Client type and version information for the application on top.
    pub fn client_info(&mut self, client_type: String, version: String, comments: Option<String>)
        ensures
            final(self)@ == (SessionBuilderView {
                client_type: client_type@,
                client_version: version@,
                client_comments: opt_text_view(comments),
                ..old(self)@
            }),
    {
        self.client_type = client_type;
        self.client_version = version;
        self.client_comments = comments;
    }

    /// How often, in seconds, to heartbeat the relay service.
    pub fn heartbeat_interval(&mut self, heartbeat_interval: u32)
        ensures
            final(self)@ == (SessionBuilderView {
                heartbeat_interval: Some(heartbeat_interval),
                ..old(self)@
            }),
    {
        self.heartbeat_interval = Some(heartbeat_interval);
    }

    /// How long, in seconds, to wait for a heartbeat response before the
    /// session counts as dead.
    pub fn heartbeat_tolerance(&mut self, heartbeat_tolerance: u32)
        ensures
            final(self)@ == (SessionBuilderView {
                heartbeat_tolerance: Some(heartbeat_tolerance),
                ..old(self)@
            }),
    {
        self.heartbeat_tolerance = Some(heartbeat_tolerance);
    }

    /// Opaque, machine-readable metadata string for this session.
    pub fn metadata(&mut self, metadata: String)
        ensures
            final(self)@ == (SessionBuilderView { metadata: Some(metadata@), ..old(self)@ }),
    {
        self.metadata = Some(metadata);
    }

    /// The network address to dial to reach the relay service.
    pub fn server_addr(&mut self, addr: String)
        ensures
            final(self)@ == (SessionBuilderView { server_addr: Some(addr@), ..old(self)@ }),
    {
        self.server_addr = Some(addr);
    }

    /// Which certificates validate the session connection: "trusted" for
    /// the relay's own authority, "host" for the operating system's.
    pub fn root_cas(&mut self, root_cas: String)
        ensures
            final(self)@ == (SessionBuilderView { root_cas: Some(root_cas@), ..old(self)@ }),
    {
        self.root_cas = Some(root_cas);
    }

    /// Add a certificate (PEM) used to validate the session connection.
    pub fn ca_cert(&mut self, cert_bytes: Vec<u8>)
        ensures
            final(self)@ == (SessionBuilderView {
                ca_certs: old(self)@.ca_certs.push(cert_bytes@),
                ..old(self)@
            }),
    {
        self.ca_certs.push(cert_bytes);
        proof {
            assert(self@.ca_certs =~= old(self)@.ca_certs.push(cert_bytes@));
        }
    }

    /// Register the callback token invoked after a disconnection.
    pub fn handle_disconnection(&mut self, handler: u64)
        ensures
            final(self)@ == (SessionBuilderView {
                disconnect_handler: Some(handler),
                ..old(self)@
            }),
    {
        self.disconnect_handler = Some(handler);
    }

    /// Register the callback token invoked when the relay asks this
    /// session to stop.
    pub fn handle_stop_command(&mut self, handler: u64)
        ensures
            final(self)@ == (SessionBuilderView { stop_handler: Some(handler), ..old(self)@ }),
    {
        self.stop_handler = Some(handler);
    }

    /// Register the callback token invoked when the relay asks this
    /// session to restart.
    pub fn handle_restart_command(&mut self, handler: u64)
        ensures
            final(self)@ == (SessionBuilderView { restart_handler: Some(handler), ..old(self)@ }),
    {
        self.restart_handler = Some(handler);
    }

    /// Register the callback token invoked when the relay asks this
    /// session to update.
    pub fn handle_update_command(&mut self, handler: u64)
        ensures
            final(self)@ == (SessionBuilderView { update_handler: Some(handler), ..old(self)@ }),
    {
        self.update_handler = Some(handler);
    }

    /// Register the callback token invoked on every heartbeat response.
    pub fn handle_heartbeat(&mut self, handler: u64)
        ensures
            final(self)@ == (SessionBuilderView { heartbeat_handler: Some(handler), ..old(self)@ }),
    {
        self.heartbeat_handler = Some(handler);
    }

    /// Fill in the stored default auth token, when one exists and none was
    /// set on this builder.
    pub fn handle_default_auth_token(&mut self, default_token: &Option<String>)
        ensures
            final(self)@ == (match default_token {
                Some(t) => if !old(self)@.auth_token_set {
                    (SessionBuilderView { authtoken: Some(t@), ..old(self)@ })
                } else {
                    old(self)@
                },
                None => old(self)@,
            }),
    {
        match default_token {
            Some(t) => {
                if !self.auth_token_set {
                    self.authtoken = Some(t.clone());
                }
            },
            None => {},
        }
    }
}

/// An established control session, known here by the id the transport
/// assigned; the live connection itself is owned outside.
#[derive(Debug)]
pub struct Session {
    pub id: String,
}

impl Session {
    /// The session's display name.
    pub fn __str__(&self) -> (r: String)
        ensures
            r@ == "ngrok_session"@,
    {
        "ngrok_session".to_owned()
    }

    /// Wrap a session the transport has established.
    pub fn connected(id: String) -> (r: Session)
        ensures
            r.id@ == id@,
    {
        Session { id }
    }

    /// A second handle to the same session.
    pub fn duplicate(&self) -> (r: Session)
        ensures
            r.id@ == self.id@,
    {
        Session { id: self.id.clone() }
    }

    /// Start building a listener backing an HTTP endpoint; pure
    /// construction, no remote call.
    pub fn http_endpoint(&self) -> (r: HttpListenerBuilder)
        ensures
            r@ == spec_http_builder_empty(),
    {
        HttpListenerBuilder::new()
    }

    /// Start building a listener backing a TCP endpoint.
    pub fn tcp_endpoint(&self) -> (r: TcpListenerBuilder)
        ensures
            r@ == spec_tcp_builder_empty(),
    {
        TcpListenerBuilder::new()
    }

    /// Start building a listener backing a TLS endpoint.
    pub fn tls_endpoint(&self) -> (r: TlsListenerBuilder)
        ensures
            r@ == spec_tls_builder_empty(),
    {
        TlsListenerBuilder::new()
    }

    /// Start building a labeled listener.
    pub fn labeled_listener(&self) -> (r: LabeledListenerBuilder)
        ensures
            r@ == spec_labeled_builder_empty(),
    {
        LabeledListenerBuilder::new()
    }

    /// This session's non-closed listeners, in no particular order.
    pub fn get_listeners(&self, reg: &ListenerRegistry) -> (r: Vec<Listener>)
        ensures
            r@.map_values(|l: Listener| l@) =~= spec_list(reg@, Some(self.id@)),
    {
        list_listeners(reg, Some(&self.id))
    }

    /// Gate for closing one listener by id: reports the not-found
    /// condition for an id that is no longer live, before any remote call.
    pub fn close_listener_begin(&self, reg: &ListenerRegistry, id: &String) -> (r: Result<
        (),
        Error,
    >)
        ensures
            r is Ok <==> contains_id(reg@, id@),
            r matches Err(e) ==> e is NotFound,
    {
        close_begin(reg, id)
    }

    /// Completion of closing one listener: local removal happens once the
    /// remote call has returned, and never masks a remote failure. The
    /// first component is the cached socket capability, handed back on
    /// every path so that the caller closes it exactly once.
    pub fn close_listener_finish(
        &self,
        reg: &mut ListenerRegistry,
        sockets: &mut SocketCache,
        id: &String,
        rpc: &RpcOutcome,
    ) -> (r: (Option<SocketHandle>, Result<(), Error>))
        requires
            old(reg).wf(),
            old(sockets).wf(),
        ensures
            final(reg).wf(),
            final(sockets).wf(),
            final(reg)@ =~= spec_remove(old(reg)@, id@),
            final(sockets)@ =~= cache_remove(old(sockets)@, id@),
            !contains_id(final(reg)@, id@),
            r.0 is Some <==> crate::socket::cache_contains(old(sockets)@, id@),
            r.0 matches Some(h) ==> crate::socket::cache_lookup(old(sockets)@, id@) == Some(h@),
            r.1 is Ok <==> rpc is Done,
            rpc matches RpcOutcome::Failed { message, code } ==> r.1 matches Err(e) && (
            e matches Error::Remote { message: m, code: c } && m@ == "error closing listener: "@
                + message@ && (match code {
                Some(cd) => c matches Some(cs) && cs@ == cd@,
                None => c is None,
            })),
    {
        close_finish(reg, sockets, id, rpc)
    }
}

} // verus!
