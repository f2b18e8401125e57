//! Core of an operator-facing dashboard that watches authentication logs,
//! enriches observed IPv4 addresses with geolocation data, and keeps a
//! normalized history of warnings and bans per address, ISP, country,
//! region and city.
//!
//! The crate holds the verified heart of that system: the entity rows and
//! their storage, the ingestion pipeline that turns a raw log line into
//! consistent counter updates, the action vocabulary with its textual
//! codec, and the dispatch step that routes one action at a time.

pub mod schema;
pub mod storage;
pub mod text;
pub mod action;
pub mod ingest;
pub mod pipeline;
pub mod sched;
pub mod stats;
