//! The address normalizer and the strict target parser of the forwarding
//! engine. Normalization is pure string repair: it infers schemes, appends
//! the default port, and tags path-looking values as local-socket targets.
//! Rejection of malformed addresses happens only at parse time, through the
//! strict URL parser.

use vstd::prelude::*;
use vstd::string::*;

use crate::errors::Error;
use crate::text::{contains_char, spec_dec, str_contains_char, u64_to_dec};

verus! {

/// A user-supplied forward target: either a bare port or a textual address.
#[derive(Clone, Debug)]
pub enum AddrArg {
    Port(u16),
    Name(String),
}

/// Normalization of a textual address: anything with a port separator is
/// kept as given; a path-looking value gets the local-socket scheme; a bare
/// host gets the default scheme and port.
pub open spec fn spec_normalize_name(s: Seq<char>) -> Seq<char> {
    if contains_char(s, ':') {
        s
    } else if contains_char(s, '/') {
        "unix:"@ + s
    } else {
        "tcp://"@ + s + ":80"@
    }
}

/// Normalization of the whole argument: absent means loopback port 80,
/// an integer means loopback at that port.
pub open spec fn spec_normalize(addr: Option<AddrArg>) -> Seq<char> {
    match addr {
        None => "tcp://localhost:80"@,
        Some(AddrArg::Port(p)) => "tcp://localhost:"@ + spec_dec(p as nat),
        Some(AddrArg::Name(s)) => spec_normalize_name(s@),
    }
}

/// Turn a user-supplied forward target into a fully-schemed address string.
/// Pure; malformed addresses are not rejected here but at parse time.
pub fn normalize(addr: Option<&AddrArg>) -> (r: String)
    ensures
        r@ == spec_normalize(match addr {
            Some(a) => Some(*a),
            None => None,
        }),
{
    match addr {
        None => "tcp://localhost:80".to_owned(),
        Some(AddrArg::Port(p)) => "tcp://localhost:".to_owned().concat(
            u64_to_dec(*p as u64).as_str(),
        ),
        Some(AddrArg::Name(s)) => {
            if str_contains_char(s.as_str(), ':') {
                s.clone()
            } else if str_contains_char(s.as_str(), '/') {
                "unix:".to_owned().concat(s.as_str())
            } else {
                "tcp://".to_owned().concat(s.as_str()).concat(":80")
            }
        },
    }
}

/// Normalization round trip at the default: an absent address and the bare
/// port 80 normalize to the same loopback target.
pub proof fn lemma_default_addr_equivalence()
    ensures
        spec_normalize(None) == spec_normalize(Some(AddrArg::Port(80))),
{
    reveal_strlit("tcp://localhost:80");
    reveal_strlit("tcp://localhost:");
    assert(spec_dec(8) =~= seq!['8']);
    assert(spec_dec(80) =~= seq!['8', '0']);
    assert("tcp://localhost:"@ + spec_dec(80nat) =~= "tcp://localhost:80"@);
}

/// A lower-case host chunk: letters, digits, `-` and `.`, at least one.
pub open spec fn host_chunk_ok(s: Seq<char>) -> bool {
    s.len() > 0 && forall|i: int|
        0 <= i < s.len() ==> ('a' <= #[trigger] s[i] <= 'z' || '0' <= s[i] <= '9' || s[i] == '-'
            || s[i] == '.')
}

/// A run of decimal digits, at least one.
pub open spec fn digits_ok(s: Seq<char>) -> bool {
    s.len() > 0 && forall|i: int| 0 <= i < s.len() ==> '0' <= #[trigger] s[i] <= '9'
}

/// Whether `s` has the bare `host:port` shape: a host chunk, one colon, and
/// a run of digits.
pub open spec fn spec_is_host_port(s: Seq<char>) -> bool {
    exists|k: int|
        0 <= k < s.len() && s[k] == ':' && host_chunk_ok(s.subrange(0, k)) && digits_ok(
            s.subrange(k + 1, s.len() as int),
        )
}

/// Relies on regex::Regex: `is_match` with the anchored pattern
/// `^[a-z0-9\-\.]+:[0-9]+$` holds exactly of strings made of one host chunk,
/// one colon, and one digit run.
#[verifier::external_body]
fn host_port_is_match(s: &str) -> (r: bool)
    ensures
        r == spec_is_host_port(s@),
{
    let re = regex::Regex::new("^[a-z0-9\\-\\.]+:[0-9]+$").unwrap();
    re.is_match(s)
}

/// Target repair done by the forwarding engine before the strict parse: a
/// value with no colon, or with the bare `host:port` shape, gets a scheme
/// chosen by whether it looks like a path.
pub open spec fn spec_repair(s: Seq<char>) -> Seq<char> {
    if !contains_char(s, ':') || spec_is_host_port(s) {
        if contains_char(s, '/') {
            "unix:"@ + s
        } else {
            "tcp://"@ + s
        }
    } else {
        s
    }
}

/// Repair a forward target into a fully-schemed string, as the forwarding
/// engine does right before parsing it.
pub fn repair_target(addr: &str) -> (r: String)
    ensures
        r@ == spec_repair(addr@),
{
    if !str_contains_char(addr, ':') || host_port_is_match(addr) {
        if str_contains_char(addr, '/') {
            "unix:".to_owned().concat(addr)
        } else {
            "tcp://".to_owned().concat(addr)
        }
    } else {
        addr.to_owned()
    }
}

/// The serialization of `s` parsed as a URL, when `s` parses.
pub uninterp spec fn parsed_url(s: Seq<char>) -> Option<Seq<char>>;

/// Relies on url::Url::parse for acceptance and on Url::as_str for the
/// serialization of the parsed URL; both depend on the input alone.
#[verifier::external_body]
fn url_parse(s: &str) -> (r: Option<String>)
    ensures
        r is Some <==> parsed_url(s@) is Some,
        r matches Some(u) ==> parsed_url(s@) == Some(u@),
{
    match url::Url::parse(s) {
        Ok(u) => Some(String::from(u.as_str())),
        Err(_) => None,
    }
}

/// Strictly parse an already-repaired forward target. Failure is the
/// `InvalidAddress` error carrying the offending address; success yields the
/// parsed serialization that the forward loop will be driven with.
pub fn parse_target(addr: &str) -> (r: Result<String, Error>)
    ensures
        match parsed_url(addr@) {
            Some(u) => r matches Ok(t) && t@ == u,
            None => r matches Err(e) && (e matches Error::InvalidAddress { addr: a } && a@
                == addr@),
        },
{
    match url_parse(addr) {
        Some(u) => Ok(u),
        None => Err(Error::InvalidAddress { addr: addr.to_owned() }),
    }
}

/// A local server address handed over by a caller that wants its server
/// linked with a listener: either an internet host and port, or a file
/// socket path.
#[derive(Clone, Debug)]
pub enum ServerAddress {
    Inet { host: String, port: u16 },
    Path { path: String },
}

/// The forward target for a local server: internet addresses get the
/// default scheme, paths get the local-socket scheme.
pub fn address_from_server(addr: &ServerAddress) -> (r: String)
    ensures
        match addr {
            ServerAddress::Inet { host, port } => r@ == "tcp://"@ + host@ + ":"@ + spec_dec(
                *port as nat,
            ),
            ServerAddress::Path { path } => r@ == "unix:"@ + path@,
        },
{
    match addr {
        ServerAddress::Inet { host, port } => "tcp://".to_owned().concat(host.as_str()).concat(
            ":",
        ).concat(u64_to_dec(*port as u64).as_str()),
        ServerAddress::Path { path } => "unix:".to_owned().concat(path.as_str()),
    }
}

} // verus!
