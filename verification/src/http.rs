//! Transport-facing failure contracts, credential framing and bounded encodings.

pub mod admin;
pub mod base64_encoding;
pub mod credentials;
pub mod error;
pub mod execution;
pub mod file_download;
pub mod file_headers;
pub mod file_list;
pub mod file_requests;
pub mod file_routes;
pub mod file_upload;
pub mod headers;
pub mod identity;
pub mod json_body;
pub mod media_encoding;
pub mod protocol;
pub mod response;
pub mod upgrade;
