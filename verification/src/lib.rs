//! Verified core of a task-tracking backend's authorization layer.
//!
//! The crate covers the dual-flow credential subsystem: signed bearer
//! tokens (issuance and validation), opaque personal access tokens
//! (creation, lookup and revocation), the request guard that classifies
//! and checks the `Authorization` header, and the password login flow.

pub mod claims;
pub mod config;
pub mod guard;
pub mod health;
pub mod login;
pub mod pat;
pub mod registration;
pub mod store;
pub mod task;
pub mod version;
