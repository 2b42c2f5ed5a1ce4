//! A web-search tool behind a uniform tool contract: a fixed parameter
//! schema, defensive extraction of untyped arguments, and the decisions that
//! turn one upstream round trip into a normalised `ToolResult`.
//!
//! The network exchange itself is left to the caller: `ExaSearchTool::start`
//! says whether a request is to be sent (and which), and
//! `ExaSearchTool::complete` turns the upstream status and body into the
//! outcome.
pub mod args;
pub mod json;
pub mod laws;
pub mod result;
pub mod schema;
pub mod search;
pub mod status;
pub mod text;
