//! Marshalling and result interpretation for the configuration-file calls of a
//! native cryptography library.
//!
//! The native entry points themselves are reached by the embedding program.
//! This crate decides what is handed to them and what their answers mean:
//! optional strings become NUL-terminated buffers or stay absent, a returned
//! pointer becomes an owning handle or a failure, and a returned code becomes
//! success or a request for the queued error records.

pub mod cstr;
pub mod error;
pub mod conf;
