//! The verified core of an MCP server that exposes Docker operations to AI
//! agents: scope authorization, argument validation, output sanitization,
//! the pinned tool inventory, configuration, audit events, and the decisions
//! that every tool invocation goes through.
use vstd::prelude::*;

pub mod audit;
pub mod auth;
pub mod config;
pub mod engine;
pub mod error;
pub mod inventory;
pub mod laws;
pub mod sanitize;
pub mod service;
pub mod text;
pub mod validate;

pub use audit::{
    chrono_now, format_timestamp, AuditEvent, AuditLogger, AuditResultStatus, AuditSink,
};
pub use auth::{parse_scopes, Authorizer, ToolScope};
pub use config::Config;
pub use engine::{
    append_log_chunk, compose_result, container_name, create_plan, run_message, CreatePlan,
    RunSpec,
};
pub use error::DockerMcpError;
pub use inventory::{
    inventory_fingerprint, inventory_map, registered_tools, ToolDefinition, ToolMap,
    SERVER_VERSION,
};
pub use sanitize::{
    default_max_bytes, fingerprint_text, params_fingerprint, sanitize_output, truncate_bytes,
};
pub use service::{DockerService, ToolRequest};
pub use validate::{
    validate_command_args, validate_compose_path, validate_env, validate_log_tail, validate_name,
};

verus! {

} // verus!
