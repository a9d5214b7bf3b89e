//! Verified core of a content-operations analytics pipeline for CMS webhooks:
//! webhook normalization, event classification, storage keys, signature checks,
//! query-API validation and debug data generation.

pub mod text;
pub mod event_kind;
pub mod json;
pub mod status;
pub mod time;
pub mod normalize;
pub mod signature;
pub mod storage;
pub mod ingest;
pub mod event_file;
pub mod seed;
pub mod api;
