//! User directory and credential service: password hashing, bearer tokens,
//! and the decisions behind login, self-lookup, password change and
//! admin-gated account creation.

pub mod crypto;
pub mod claims;
pub mod config;
pub mod credential;
pub mod user;
pub mod error;
pub mod service;
pub mod payloads;
pub mod flow;
