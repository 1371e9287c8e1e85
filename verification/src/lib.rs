//! Model routing for Cursor runs.
pub mod text;
pub mod text_laws;
pub mod text_map;
pub mod error;
pub mod plugin;
pub mod policy;
pub mod policy_context;
pub mod policy_reading;
pub mod policy_file;
pub mod bytes;
pub mod subagent;
pub mod wire;
pub mod model;
pub mod rewrite;
pub mod registry;
pub mod lifecycle;
pub mod registry_laws;
pub mod http;
pub mod selection;
pub mod append;
pub mod routes;
pub mod startup_timing;
pub mod token;
pub mod get_me_cache;
pub mod plugin_catalog;
