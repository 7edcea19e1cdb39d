//! Verified core of a local Google credential and admin helper: capability
//! profiles, tool policy, gcloud command planning, shell quoting, scope
//! normalization, OAuth client validation and the error taxonomy.

pub mod config;
pub mod error;
pub mod json;
pub mod text;
pub mod tools;
pub mod google_cli;
pub mod google_api;
pub mod server;
pub mod tool_surface;
