//! The metrics query API: its configuration, request validation, access
//! control for the MCP endpoint, and the SQL it runs against the events.

pub mod error;
pub mod config;
pub mod validation;
pub mod sql;
pub mod sql_laws;
pub mod setup;
pub mod access;
pub mod rows;
pub mod mcp;
