//! The REST API.

pub mod auth;
