//! A simulated device-control command endpoint.
//!
//! The crate models the command pipeline of an interactive device-control
//! tool: an envelope codec for JSON-shaped command frames, a registry that
//! dispatches a (domain, operation) pair to one of three canned handlers,
//! and a response encoder that renders the structured reply, with every
//! human-readable diagnostic carried base64-encoded.

pub mod connection;
pub mod encoding;
pub mod envelope;
pub mod handlers;
pub mod json;
pub mod laws;
pub mod pipeline;
pub mod registry;
pub mod response;
pub mod text;
