//! A verified core for a fleet-monitoring client.

pub mod client;
pub mod domain;
pub mod ffi;
pub mod ident;
pub mod json;
pub mod number;
pub mod otlp;
pub mod text;
pub mod text_map;
pub mod time;
pub mod usage;
