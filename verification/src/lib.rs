//! Mustel: the verified core of a PostgreSQL query toolkit.

pub mod error;
pub mod text;
pub mod base64;
pub mod credential_store;
pub mod analyzer;
pub mod security;
pub mod models;
pub mod user_config;
pub mod exporter;
pub mod numeric;
pub mod connection;
pub mod executor;
pub mod query_runner;
pub mod cli;
pub mod prompts;
pub mod db_servers;
pub mod results;
pub mod editor;
pub mod sidebar;
pub mod server_manager;
pub mod gui_app;
