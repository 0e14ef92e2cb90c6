//! A minimal forwarding proxy core: it turns an inbound HTTP request into the
//! request sent to a fixed upstream host, and turns the upstream answer back
//! into what the client receives.
//!
//! Everything here is plain computation over values; the network, the clock
//! and the socket live with the caller.

mod text;
pub mod method;
pub mod user_agent;
pub mod inbound;
pub mod outbound;
pub mod relay;
pub mod proxy;
pub mod laws;
