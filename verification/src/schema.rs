//! Field schema extraction: classifying a field's declared type shape.
//!
//! A type expression is the optional-wrapper shape iff it is a named
//! single-segment type reference called `Option` carrying exactly one
//! angle-bracket type argument; in that case the field's effective type is
//! that argument. Any other shape is treated as plain. The same
//! first-argument extraction is reused to look up the element type of an
//! accumulating container.

use vstd::prelude::*;
use vstd::string::StringExecFns;
use crate::model::TypeExpr;

verus! {

/// Whether the type expression is the recognized optional-wrapper shape.
pub open spec fn spec_is_option(t: TypeExpr) -> bool {
    &&& t.name is Some
    &&& t.name->0@ == "Option"@
    &&& t.args@.len() == 1
}

/// The first angle-bracket type argument, if the expression carries one.
pub open spec fn spec_first_arg(t: TypeExpr) -> Option<TypeExpr> {
    if t.args@.len() > 0 {
        Some(t.args@[0])
    } else {
        None
    }
}

/// The type a builder slot is based on: the declared type itself, unless the
/// field is optional, in which case the unwrapped inner type.
pub open spec fn spec_effective_type(t: TypeExpr) -> TypeExpr {
    if spec_is_option(t) {
        t.args@[0]
    } else {
        t
    }
}

/// Compares two string slices by content.
pub fn str_content_eq(a: &str, b: &str) -> (r: bool)
    ensures
        r == (a@ == b@),
{
    let sa = String::from_str(a);
    let sb = String::from_str(b);
    sa == sb
}

/// Whether the field's declared type is the optional-wrapper shape.
pub fn is_option(t: &TypeExpr) -> (r: bool)
    ensures
        r == spec_is_option(*t),
{
    match &t.name {
        Some(s) => t.args.len() == 1 && str_content_eq(s.as_str(), "Option"),
        None => false,
    }
}

/// The single-argument extraction routine: the first angle-bracket type
/// argument of the expression, if any.
pub fn get_angle_bracket_arg(t: &TypeExpr) -> (r: Option<&TypeExpr>)
    ensures
        match r {
            Some(a) => spec_first_arg(*t) == Some(*a),
            None => spec_first_arg(*t) is None,
        },
{
    if t.args.len() > 0 {
        Some(&t.args[0])
    } else {
        None
    }
}

} // verus!
