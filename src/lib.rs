//! Frame distribution and tunnel lifecycle for a camera streaming service.
//!
//! The library holds the two coordination primitives of the service as
//! verified state machines: a fan-out [`hub::Hub`] that hands the latest
//! camera frame to each subscriber, and a [`tunnel::TunnelController`] that
//! starts and stops the on-demand remote-access tunnel exactly once per
//! session. Thread synchronisation, sockets and the chat platform live in
//! the application around it.
pub mod message;
pub mod hub;
pub mod tunnel;
pub mod config;
pub mod workers;
