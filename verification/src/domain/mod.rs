//! The domain: hosts, metrics, liveness, alert rules, and what they are named by.

pub mod alert;
pub mod clock;
pub mod error;
pub mod host;
pub mod liveness;
pub mod metric;
pub mod ports;
pub mod urn;
