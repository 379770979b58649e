//! The verified core of a small product service guarded by HTTP Basic
//! authentication: the credential codec, the guard that admits or rejects a
//! request, and the statements that each product operation sends to storage.

pub mod basic_auth;
pub mod encoding;
pub mod guard;
pub mod models;
pub mod repositories;
