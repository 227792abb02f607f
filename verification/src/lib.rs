//! Verified pieces of a coding agent's session plumbing.

pub mod apply_patch;
pub mod clock;
pub mod context;
pub mod encoding;
pub mod http_response;
pub mod json;
pub mod mcp_notifications;
pub mod protocol;
pub mod remote_control;
pub mod text;
pub mod tool_output_prune;
