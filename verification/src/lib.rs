//! Wire encoding and decoding of TFTP messages (RFC 1350 family), plus a
//! small per-exchange session record.
//!
//! The codec maps each of the five message kinds to its exact byte-level
//! wire form and back, rejecting malformed input with a precise error.
pub mod conn;
pub mod msg;
