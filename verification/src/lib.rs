//! Marshalling core for the macOS Text Input Source framework.
//!
//! The crate holds, as plain values, what crosses the boundary with the
//! operating system and with an embedding editor runtime: the property
//! schema, property records, native property dictionaries, status codes and
//! the externally visible names of the properties.

pub mod lisp_utils;
mod text;
pub mod tis;
