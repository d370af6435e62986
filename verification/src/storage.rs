//! Cloud Storage: object download and single-request media upload.

pub mod client;
pub mod object;
