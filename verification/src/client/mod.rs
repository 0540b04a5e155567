//! What a fleet client holds between polls and shows after them, as plain values.
//!
//! Polling, folding and the judgements behind a view belong to the client core;
//! these are the values it takes and hands out.

pub mod config;
pub mod error;
pub mod fold;
pub mod probe;
pub mod settings;
pub mod view;
