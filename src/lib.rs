//! A file-backed store mapping player identifiers to moderation records.
//!
//! The library holds the records, their normalisation after a load, the
//! name-history bookkeeping and the startup decisions; reading and writing
//! the backing file is left to the host.

pub mod json;
pub mod record;
pub mod time;
pub mod store;
pub mod laws;
