//! Derivation of a fluent builder for a named-field record.
//!
//! Given a description of a record type (its name and its fields, each with
//! a nominal type and its attributes), the crate classifies every field as
//! required, optional or repeated, and emits the token text of a companion
//! builder type: per-field setters and a fallible `build` method that
//! reports the first unset required field.

pub mod ast;
pub mod attr;
pub mod classify;
pub mod diag;
pub mod emit;
pub mod expand;
pub mod machine;
