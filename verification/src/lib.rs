//! Verified core of a Zotero Model Context Protocol server: security policy,
//! PDF page selection, attachment path resolution, tool catalog and
//! resource routing, retry and body limits of backend calls, tool argument
//! defaults, and the bookkeeping of the semantic search index.

pub mod error;
pub mod text;
pub mod pdf;
pub mod paths;
pub mod security;
pub mod items;
pub mod attachments;
pub mod state;
pub mod catalog;
pub mod resources;
pub mod semantic;
pub mod args;
pub mod http;
pub mod flat_tools;
pub mod tool_result;
pub mod index_run;
