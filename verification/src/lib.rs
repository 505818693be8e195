//! Core of an HTTP service that emulates authentication: it issues identity tokens and refresh
//! tokens, exchanges a refresh token for new tokens, and validates identity tokens.
//!
//! - [`config`]: the settings, read from environment variables;
//! - [`store`]: the refresh tokens that are out;
//! - [`claims`]: identity tokens, signed and verified;
//! - [`service`]: the requests and their answers;
//! - [`metrics`] and [`push`]: what is measured, shown and pushed;
//! - [`laws`]: what holds over several requests;
//! - [`reply`], [`text`], [`json`], [`fnv`] and [`fresh`]: answers, texts, JSON objects, a hash,
//!   and the time and random identifiers.
pub mod claims;
pub mod config;
pub mod fnv;
pub mod fresh;
pub mod json;
pub mod laws;
pub mod metrics;
pub mod push;
pub mod reply;
pub mod service;
pub mod store;
pub mod text;
