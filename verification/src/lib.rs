//! Bounded, transport-neutral public service contracts and their verified checks.

pub mod platform;
pub mod realtime_runtime;
pub mod realtime_sessions;
pub mod realtime_requests;
pub mod admin;
pub mod domain;
pub mod files;
pub mod http;
pub mod text;
