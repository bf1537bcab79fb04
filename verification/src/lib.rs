//! A verified skeleton of a minimal HTTP service: a bounded resource-pool
//! state machine, a per-request metadata carrier, a fixed middleware pipeline
//! (request-ID assignment and propagation, trace body capture, response
//! compression negotiation, CORS enforcement), a small router, and the
//! startup / shutdown lifecycle that wires them together.
//!
//! The actual listener, the relational store, and the key-value cache are
//! external collaborators: the functions here take their results as plain
//! values and decide everything else, so the decisions are verified for every
//! outcome those collaborators can produce.

pub mod compress;
pub mod config;
pub mod cors;
pub mod handlers;
pub mod http;
pub mod lifecycle;
pub mod pipeline;
pub mod pool;
pub mod router;
pub mod trace;
