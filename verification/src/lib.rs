//! Typed access to a few Google Cloud APIs (Cloud Storage, Cloud KMS,
//! Pub/Sub, Drive) with shared bearer-token lifecycle management.
//!
//! The verified core is the token cache ([`auth::TokenManager`]): it holds at
//! most one bearer token per client, serves it while it is valid, and asks the
//! credential source for a fresh one exactly when the cached token is absent
//! or expired.  Around it, the library builds every request the service
//! clients send: URIs with percent-encoded path segments and query strings,
//! gRPC request metadata, and the JSON metadata body of a Drive upload.  The
//! network transport itself lives outside the library.

pub mod auth;
pub mod drive;
pub mod encoding;
pub mod error;
pub mod kms;
pub mod pubsub;
pub mod storage;
pub mod util;
