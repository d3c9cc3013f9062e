//! The input to builder derivation — the structural description of a
//! record-like type — and the classification derived from it, per field.

use vstd::prelude::*;
use vstd::string::StringExecFns;
use crate::type_expr::TypeExpr;

verus! {

/// One declared field of a record: its name and its declared type.
#[derive(Debug)]
pub struct FieldDecl {
    pub name: String,
    pub ty: TypeExpr,
}

/// The shape of the described type's body.
#[derive(Debug)]
pub enum RecordData {
    /// A product type with named fields: the only shape a builder can be
    /// derived for.
    Named { fields: Vec<FieldDecl> },
    /// A tuple-like product type (positional fields only).
    Unnamed,
    /// A unit type with no field list.
    Unit,
    /// Any non-product shape (a sum type, for instance).
    Other,
}

/// The description of a record type as read from its declaration: its name
/// and the shape of its body.
#[derive(Debug)]
pub struct RecordDescription {
    pub name: String,
    pub data: RecordData,
}

/// What classification derives for one field: whether a value for it must be
/// present at build time, and the type an argument to its setter must have.
#[derive(Debug)]
pub struct FieldInfo {
    pub name: String,
    pub is_mandatory: bool,
    pub inner_type: TypeExpr,
}

/// A generation-time usage error: the described type has no meaningful
/// builder, so derivation aborts immediately.
#[derive(Debug)]
pub enum GenError {
    /// The described type is not a product type.
    NotAStruct,
    /// The described type has positional-only fields or no field list.
    FieldsNotNamed,
    /// The described type has an empty field list.
    EmptyFieldList,
    /// The named field's declared type has no recognizable structural form.
    UnsupportedFieldType { field: String },
}

impl GenError {
    /// A human-readable description of the error.
    pub fn message(&self) -> (r: String)
        ensures
            match *self {
                GenError::NotAStruct => r@ == "only a struct type can have a derived builder"@,
                GenError::FieldsNotNamed => r@
                    == "only named fields are supported in a struct with a derived builder"@,
                GenError::EmptyFieldList => r@
                    == "a struct with a derived builder must have at least one field"@,
                GenError::UnsupportedFieldType { field } => r@
                    == "unrecognized declared type on field: "@ + field@,
            },
    {
        match self {
            GenError::NotAStruct => {
                String::from_str("only a struct type can have a derived builder")
            }
            GenError::FieldsNotNamed => {
                String::from_str("only named fields are supported in a struct with a derived builder")
            }
            GenError::EmptyFieldList => {
                String::from_str("a struct with a derived builder must have at least one field")
            }
            GenError::UnsupportedFieldType { field } => {
                String::from_str("unrecognized declared type on field: ").concat(field.as_str())
            }
        }
    }
}

} // verus!
