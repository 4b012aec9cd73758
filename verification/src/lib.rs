//! Verified core of the Vestige MCP server.

pub mod json;
pub mod text;
pub mod cross_reference;
pub mod codebase;
pub mod deprecated;
pub mod confirm;
pub mod telemetry;
pub mod compound;
pub mod precompute;
pub mod schema;
pub mod erase;
pub mod confidence;
pub mod memory;
pub mod intention;
pub mod changelog;
pub mod dream;
pub mod explore;
pub mod health;
pub mod maintenance;
pub mod catalog;
pub mod events;
pub mod dispatch;
