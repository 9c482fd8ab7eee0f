//! Verified core of a native cryptographic bridge.
//!
//! The library exposes the computational heart of a bridge that offers
//! Ed25519 key handling, message signing and verification, and construction
//! of confidential-amount transfer payloads on top of an external
//! cryptographic primitives library.  Everything that crosses the bridge is
//! a plain value: byte vectors, strings, integers, and the library's own
//! record types.  The surrounding foreign-function plumbing lives outside
//! this crate and hands those plain values in and out.

pub mod amounts;
pub mod bytesutil;
pub mod codes;
pub mod ed25519;
pub mod dlog;
pub mod group;
pub mod json;
pub mod transfer;
