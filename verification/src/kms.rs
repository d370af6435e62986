//! Cloud KMS: key-ring and crypto-key listing, encryption and decryption.

pub mod client;
