//! The boundary to the apps: records in shapes that cross it, and the conversions
//! between them and the values the client works with.

pub mod config_records;
pub mod convert;
pub mod fold_records;
pub mod probe_records;
pub mod session;
pub mod settings_sync_records;
pub mod usage;
pub mod view_records;
