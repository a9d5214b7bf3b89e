//! Deterministic generation of local debug data: a small smoke set of
//! webhooks and a large, realistic bulk set driven by a seeded generator.

pub mod rng;
pub mod config;
pub mod activity;
pub mod timing;
pub mod ulid;
pub mod template;
pub mod fixture;
pub mod smoke;
pub mod schedule;
pub mod bulk;
pub mod files;
