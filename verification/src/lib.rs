//! Request planning, tool catalogue and reply decisions of an MCP server
//! for Oracle Cloud Infrastructure.

pub mod args;
pub mod catalogue_json;
pub mod client;
pub mod config;
pub mod laws;
pub mod request;
pub mod response;
pub mod rpc;
pub mod schema;
pub mod text;
