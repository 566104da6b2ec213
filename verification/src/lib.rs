//! A minimal HTTP reverse-proxy load balancer core: routing policies that
//! pick the next upstream target, and the forwarding engine that turns an
//! inbound request into an outbound one and relays the upstream's answer.
//!
//! The surrounding server (listening, sending, the connection client) lives
//! outside this crate; everything here is plain data and verified logic.

pub mod cycle;
pub mod engine;
pub mod envelope;
pub mod policy;
pub mod text;

pub use engine::{build_outbound, handle_upstream_outcome, health_response, join_uri, Loadbalancer};
pub use envelope::{InboundRequest, OutboundRequest, ProxyResponse, TransportError, UpstreamResponse};
pub use policy::{Policy, RoundRobinServerPolicy, SingleServerPolicy};
