//! Agent-side tunnel client core: listener lifecycle, forwarding decisions,
//! address normalization, and configuration plumbing, with machine-checked
//! contracts. Network transport, TLS, and host-language bridging live outside
//! this crate; the core treats them as opaque capabilities driven by events.

pub mod addr;
pub mod connect;
pub mod errors;
pub mod http;
pub mod listener;
pub mod listener_builder;
pub mod options;
pub mod policy;
pub mod registry;
pub mod session;
pub mod socket;
pub mod tcp;
pub mod text;
pub mod tls;
