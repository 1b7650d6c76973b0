//! Generates a fluent builder companion for a record type with named fields.
//!
//! The pipeline takes a plain schema of the record (name, ordered fields, each
//! with a type expression and its attached annotations), classifies every
//! field's construction strategy (required, optional, accumulating), validates
//! the `builder(each = "...")` annotation syntax, and either emits the source
//! text of the builder type or reports one located diagnostic per malformed
//! annotation.

use vstd::prelude::*;

pub mod annot;
pub mod command;
pub mod emit;
pub mod fields;
pub mod model;
pub mod schema;
pub mod slots;

pub use model::{Annotation, AnnotationToken, Diagnostic, FieldDef, RecordDef, TypeExpr};

verus! {

/// What the pipeline owes for a given record: when every annotation parses,
/// exactly the generated artifact's text; otherwise exactly one diagnostic
/// per malformed field, in declaration order, each anchored at its own
/// location — and nothing is generated, not even partially.
pub open spec fn derive_result_matches(record: RecordDef, r: Result<String, Vec<Diagnostic>>) -> bool {
    let ms = fields::record_models(record.fields@);
    if fields::spec_error_spans(ms).len() == 0 {
        r matches Ok(text) && text@ == emit::spec_generated(record.name@, ms)
    } else {
        r matches Err(v) && fields::diags_match(v@, fields::spec_error_spans(ms))
    }
}

/// The transformation pipeline: extract one descriptor per field, gate on the
/// collected annotation diagnostics, and either emit the builder companion's
/// text or report every malformed annotation together.
///
/// An accumulating field's effective type must be a single-parameter
/// container; handing one that is not is a precondition violation, as is an
/// input that is not a record with named fields (such an input cannot be
/// stated as a `RecordDef` at all).
pub fn derive(record: RecordDef) -> (r: Result<String, Vec<Diagnostic>>)
    requires
        emit::accum_fields_have_element(fields::record_models(record.fields@)),
    ensures
        derive_result_matches(record, r),
{
    let RecordDef { name, fields } = record;
    let ds = fields::get_fields(fields);
    match fields::check_fields_for_errors(&ds) {
        Some(errs) => Err(errs),
        None => Ok(emit::generate(name.as_str(), &ds)),
    }
}

/// The pipeline is deterministic: byte-identical input schemas produce
/// byte-identical artifacts — two runs on one record agree on success, on the
/// generated text, and on every reported diagnostic.
pub proof fn lemma_derive_deterministic(
    record: RecordDef,
    r1: Result<String, Vec<Diagnostic>>,
    r2: Result<String, Vec<Diagnostic>>,
)
    requires
        derive_result_matches(record, r1),
        derive_result_matches(record, r2),
    ensures
        r1 is Ok <==> r2 is Ok,
        r1 matches Ok(t1) ==> r2 matches Ok(t2) && t1@ == t2@,
        r1 matches Err(d1) ==> r2 matches Err(d2) && d1@.len() == d2@.len() && forall|j: int|
            0 <= j < d1@.len() ==> d1@[j].span == d2@[j].span && d1@[j].message@ == d2@[j].message@,
{
    let ms = fields::record_models(record.fields@);
    let spans = fields::spec_error_spans(ms);
    if spans.len() > 0 {
        let d1 = r1->Err_0;
        let d2 = r2->Err_0;
        assert forall|j: int| 0 <= j < d1@.len() implies d1@[j].span == d2@[j].span && d1@[
            j
        ].message@ == d2@[j].message@ by {
            assert(d1@[j].span == spans[j]);
            assert(d2@[j].span == spans[j]);
        }
    }
}

} // verus!
