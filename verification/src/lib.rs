//! Core logic of a screen-streaming server: the capture → convert → encode →
//! transport pipeline and the per-peer session lifecycle.
//!
//! The modules hold the verified heart of the system; the surrounding process
//! (HTTP server, capture callback thread, network transport) lives outside the
//! library and calls in with plain values.

pub mod bridge;
pub mod convert;
pub mod encoder;
pub mod input;
pub mod json;
pub mod offer;
pub mod session;
