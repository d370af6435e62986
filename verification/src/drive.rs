//! Google Drive: upload of a file by the two-phase resumable protocol.

pub mod client;
pub mod upload_file;

pub use client::Client;
pub use client::File;
