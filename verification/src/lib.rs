//! Derivation of builder companions for record-like types.
//!
//! Given a structural description of a record type (its name and its ordered,
//! named fields), this crate classifies each field as mandatory or optional,
//! derives the description of a companion builder type (one optionally-typed
//! slot and one setter per field, plus a validating construction operation),
//! and provides a runtime builder that enforces presence of every mandatory
//! field at build time.

pub mod classify;
pub mod command;
pub mod emit;
pub mod record;
pub mod runtime;
pub mod synth;
pub mod type_expr;
