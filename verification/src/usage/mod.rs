//! Usage reporting: what a report may say, whether it may be sent, and how it is
//! encoded.

pub mod attribute;
pub mod consent;
pub mod encode;
pub mod resource;
pub mod span;
