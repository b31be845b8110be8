//! Verified core of the Durian password-manager client: the credential
//! envelope, the per-user record store and the reconciliation engine that
//! keeps the store in step with the remote authority.

pub mod api_client;
pub mod commands;
pub mod crypto;
pub mod database;
pub mod error;
pub mod laws;
pub mod models;
pub mod state;
pub mod store_model;
pub mod text;
