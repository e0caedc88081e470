//! Host-side core of a network inspector for embedded browsing windows.
//!
//! A child window runs an interceptor that reports every outbound request of
//! its page as a JSON payload. This crate holds the decisions the host makes
//! about those payloads and about the windows that produce them; the shell
//! that owns the windows performs the effects those decisions call for.

pub mod commands;
pub mod interceptor;
pub mod json;
pub mod label;
pub mod relay;
pub mod target;
pub mod window;
