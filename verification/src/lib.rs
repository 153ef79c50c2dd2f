pub mod acp_error;
pub mod error;
pub mod mcp_error;
pub mod clock;
pub mod resilience;
pub mod quantization;
pub mod distance;
pub mod text;
pub mod conversation;
pub mod text_cache;
pub mod tools;
pub mod agentic_loop;
pub mod loop_run;
pub mod logger;
pub mod values;
pub mod chain;
pub mod config;
pub mod agent;
pub mod prompts;
pub mod acp_stream;
pub mod connection;
pub mod mcp_http;
pub mod library;
pub mod validation;
pub mod json;
pub mod hooks;
pub mod permission;
pub mod events;
pub mod event_types;
pub mod remote_auth;
pub mod adaptive_types;
pub mod rpc_protocol;
pub mod vector_storage;
