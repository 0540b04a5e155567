//! Shipping usage traces to an OTLP/HTTP endpoint: where they go, what is posted,
//! and what the answer comes to.

pub mod destination;
pub mod sink;
