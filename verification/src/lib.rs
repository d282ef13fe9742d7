//! Redeploys the services that follow a secret when the secret gets a new
//! version.
//!
//! A service that names a secret at its `latest` version reads the secret
//! once, when a revision starts. This library decides, from an audit event
//! and the services' configuration, which services have to start a new
//! revision, prepares them for it, and keeps the record of how their updates
//! ended. It does no input or output: [`handler::step`] tells its caller what
//! to do next, and is told what came of it.

pub mod entry;
pub mod envelope;
pub mod error;
pub mod handler;
pub mod json;
pub mod matcher;
pub mod outcome;
pub mod resource;
pub mod response;
pub mod rollout;
pub mod service;
pub mod text;
pub mod views;
