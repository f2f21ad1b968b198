//! TCP-specific configuration of the listener builder.

use vstd::prelude::*;
use vstd::string::*;

use crate::listener_builder::{TcpBuilderView, TcpListenerBuilder};

verus! {

impl TcpListenerBuilder {
    /// The reserved TCP address to request for this endpoint, for example
    /// a fixed `host:port` previously registered with the relay.
    pub fn remote_addr(&mut self, remote_addr: String)
        ensures
            final(self)@ == (TcpBuilderView { remote_addr: Some(remote_addr@), ..old(self)@ }),
    {
        self.remote_addr = Some(remote_addr);
    }

    /// Enable endpoint pooling for this listener.
    pub fn pooling_enabled(&mut self, pooling_enabled: bool)
        ensures
            final(self)@ == (TcpBuilderView {
                pooling_enabled: Some(pooling_enabled),
                ..old(self)@
            }),
    {
        self.pooling_enabled = Some(pooling_enabled);
    }
}

} // verus!
