//! Transport-neutral public service contracts.

pub mod checks;
pub mod error;
pub mod usage;
pub mod image;
pub mod chat;
pub mod embedding;
pub mod request;
pub mod response;
pub mod stream;
pub mod audio;
pub mod wav;
pub mod file;
pub mod realtime;
pub mod realtime_state;
pub mod batch;
pub mod batch_timestamps;
pub mod batch_operation;
