//! The failure taxonomy of the tunnel client core. Configuration and
//! validation failures are detected before any remote call; transport
//! failures are wrapped; the cancellation condition is internal and never
//! surfaces here.

use vstd::prelude::*;
use vstd::string::*;

verus! {

#[derive(Clone, Debug, PartialEq, Eq)]
pub enum Error {
    /// The operation referenced a listener id that is not (or no longer) in
    /// the registry; recoverable.
    NotFound,
    /// A forward target failed to parse; no state was changed.
    InvalidAddress { addr: String },
    /// An unknown protocol string was given at dispatch.
    UnsupportedProtocol { proto: String },
    /// A paired option was supplied without its required partner.
    MissingDependentOption { present: String, missing: String },
    /// An option value had the wrong shape for its key.
    InvalidOptionValue { key: String },
    /// The session transport reported a failure for a remote call.
    Remote { message: String, code: Option<String> },
    /// The listener was not created by the listen-and-forward path, so there
    /// is no forwarding task to wait for.
    NotJoinable,
}

impl Error {
    /// The human-readable message carried by this failure.
    pub open spec fn spec_message(self) -> Seq<char> {
        match self {
            Error::NotFound => "Listener is no longer running"@,
            Error::InvalidAddress { addr } => "Cannot parse address: "@ + addr@,
            Error::UnsupportedProtocol { proto } => "unhandled protocol "@ + proto@,
            Error::MissingDependentOption { present, missing } => "Missing "@ + missing@
                + " which is required when "@ + present@ + " is set"@,
            Error::InvalidOptionValue { key } => "Invalid value for option "@ + key@,
            Error::Remote { message, code } => match code {
                Some(c) => message@ + ", error code: "@ + c@,
                None => message@,
            },
            Error::NotJoinable => "Listener is not joinable"@,
        }
    }

    pub fn message(&self) -> (r: String)
        ensures
            r@ == self.spec_message(),
    {
        match self {
            Error::NotFound => "Listener is no longer running".to_owned(),
            Error::InvalidAddress { addr } => "Cannot parse address: ".to_owned().concat(
                addr.as_str(),
            ),
            Error::UnsupportedProtocol { proto } => "unhandled protocol ".to_owned().concat(
                proto.as_str(),
            ),
            Error::MissingDependentOption { present, missing } => "Missing ".to_owned().concat(
                missing.as_str(),
            ).concat(" which is required when ").concat(present.as_str()).concat(" is set"),
            Error::InvalidOptionValue { key } => "Invalid value for option ".to_owned().concat(
                key.as_str(),
            ),
            Error::Remote { message, code } => match code {
                Some(c) => message.clone().concat(", error code: ").concat(c.as_str()),
                None => message.clone(),
            },
            Error::NotJoinable => "Listener is not joinable".to_owned(),
        }
    }
}

} // verus!
