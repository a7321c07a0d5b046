//! Decoding and error reporting for a single file-writing operation: a
//! base64 payload is decoded to raw bytes, which a thin unverified shell
//! then persists to a caller-supplied path.

pub mod codec;
pub mod error;
