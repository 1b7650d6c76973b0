//! The schema model: the plain-value representation of a record definition
//! that the pipeline consumes, and the diagnostic it reports.
//!
//! The surrounding toolchain parses the raw record definition once into this
//! closed model; every later stage operates only on these types, never on raw
//! syntax again.

use vstd::prelude::*;

verus! {

/// A type expression as written in a field declaration.
///
/// Only two shapes matter to the pipeline: a plain type, and a named
/// single-segment type reference carrying angle-bracket type arguments (the
/// wrapper shape). `text` is the full expression verbatim, used whenever the
/// type is reproduced in generated output.
pub struct TypeExpr {
    /// The expression exactly as written.
    pub text: String,
    /// `Some(ident)` when the expression is a named type reference with a
    /// single path segment; `None` for any other shape.
    pub name: Option<String>,
    /// The angle-bracket type arguments of that segment, in order.
    pub args: Vec<TypeExpr>,
}

/// One token inside an annotation's argument list.
pub enum AnnotationToken {
    /// A delimited group. `parenthesized` is true for `( ... )`; `span` is an
    /// opaque location handle the caller can map back to a source position.
    Group { parenthesized: bool, tokens: Vec<AnnotationToken>, span: usize },
    /// A bare identifier.
    Ident { name: String },
    /// A single punctuation character.
    Punct { ch: char },
    /// A literal. `str_value` is `Some(content)` when the literal is a string
    /// literal, carrying the string's content (not its quoted syntax).
    Literal { str_value: Option<String> },
}

/// One annotation attached to a field, e.g. `builder(each = "arg")`.
pub struct Annotation {
    /// The segments of the annotation's path, in order.
    pub path: Vec<String>,
    /// The token trees following the path.
    pub tokens: Vec<AnnotationToken>,
}

/// One declared field of the input record.
pub struct FieldDef {
    /// The field's identifier.
    pub name: String,
    /// The field's type expression as written.
    pub ty: TypeExpr,
    /// The annotations attached to the field, in order.
    pub attrs: Vec<Annotation>,
}

/// The input record: a name and an ordered list of named fields.
pub struct RecordDef {
    /// The record type's identifier.
    pub name: String,
    /// The fields in declaration order.
    pub fields: Vec<FieldDef>,
}

/// A located error message, reported instead of generated code.
#[derive(Debug, PartialEq)]
pub struct Diagnostic {
    /// The location handle of the offending annotation group.
    pub span: usize,
    /// The human-readable message.
    pub message: String,
}

} // verus!
