//! Supervision of a WireGuard mesh member: deterministic link-local
//! addressing, the peer and device configuration each role applies, and the
//! lifecycle that drives an interface from creation to teardown.

pub mod addr;
pub mod keys;
pub mod device;
pub mod common;
pub mod client;
pub mod server;
pub mod lifecycle;
