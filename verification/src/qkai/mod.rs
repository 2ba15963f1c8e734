//! Keys, key encodings and key-file naming for authenticating QUIC endpoints by ed25519 keys.

pub mod base64;
pub mod cert;
pub mod ed25519;
pub mod error;
pub mod url;
