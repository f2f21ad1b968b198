//! TLS-specific configuration of the listener builder.

use vstd::prelude::*;
use vstd::string::*;

use crate::listener_builder::{TlsBuilderView, TlsListenerBuilder};

verus! {

impl TlsListenerBuilder {
    /// The domain to request for this endpoint.
    pub fn domain(&mut self, domain: String)
        ensures
            final(self)@ == (TlsBuilderView { domain: Some(domain@), ..old(self)@ }),
    {
        self.domain = Some(domain);
    }

    /// Add a certificate (PEM) for mutual TLS client authentication.
    pub fn mutual_tlsca(&mut self, mutual_tlsca: Vec<u8>)
        ensures
            final(self)@ == (TlsBuilderView {
                mutual_tlsca: old(self)@.mutual_tlsca.push(mutual_tlsca@),
                ..old(self)@
            }),
    {
        self.mutual_tlsca.push(mutual_tlsca);
        proof {
            assert(self@.mutual_tlsca =~= old(self)@.mutual_tlsca.push(mutual_tlsca@));
        }
    }

    /// The certificate and key (PEM) for TLS termination at the relay's
    /// edge; both are required together.
    pub fn termination(&mut self, cert_pem: Vec<u8>, key_pem: Vec<u8>)
        ensures
            final(self)@ == (TlsBuilderView {
                termination: Some((cert_pem@, key_pem@)),
                ..old(self)@
            }),
    {
        self.termination = Some((cert_pem, key_pem));
    }
}

} // verus!
