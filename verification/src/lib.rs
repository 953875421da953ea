//! Core rules of a single-file upload service: configuration, request
//! validation, stored-name generation, the part-scanning state machine and
//! the two HTML pages. All I/O is left to the caller.

pub mod ident;
pub mod filename;
pub mod error;
pub mod content_type;
pub mod config;
pub mod pages;
pub mod upload;
