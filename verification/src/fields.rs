//! Field descriptors: pairing the schema extractor's and annotation parser's
//! outputs, one descriptor per field in declaration order, and the diagnostic
//! aggregator that gates code generation.

use vstd::prelude::*;
use crate::annot::{accum_model, get_repeated_name, expected_each_message, spec_accum, spec_expected_msg, AccumModel, AccumState};
use crate::model::{Diagnostic, FieldDef, TypeExpr};
use crate::schema::{is_option, spec_effective_type, spec_first_arg, spec_is_option};

verus! {

/// One descriptor per declared field, computed once and never mutated: the
/// field's identifier, its declared type as written, its classification, the
/// type its builder slot is based on, and the annotation parse outcome.
pub struct FieldDescriptor {
    /// The field's identifier.
    pub name: String,
    /// The declared type expression, verbatim.
    pub declared_text: String,
    /// Whether the declared type is the optional-wrapper shape.
    pub is_optional: bool,
    /// The declared type, unless optional, in which case the unwrapped inner
    /// type.
    pub effective_type: TypeExpr,
    /// The annotation parse outcome.
    pub accumulator: AccumState,
}

/// The ghost model of one field: everything generation and validation read.
pub struct FieldModel {
    /// The field's identifier.
    pub name: Seq<char>,
    /// The declared type's text.
    pub declared: Seq<char>,
    /// Whether the field is optional.
    pub optional: bool,
    /// The effective type's text.
    pub eff_text: Seq<char>,
    /// The text of the effective type's first type argument, if any: the
    /// element type of an accumulating container.
    pub elem_text: Option<Seq<char>>,
    /// The annotation parse outcome.
    pub accum: AccumModel,
}

/// The model a declared field induces.
pub open spec fn field_model(f: FieldDef) -> FieldModel {
    FieldModel {
        name: f.name@,
        declared: f.ty.text@,
        optional: spec_is_option(f.ty),
        eff_text: spec_effective_type(f.ty).text@,
        elem_text: match spec_first_arg(spec_effective_type(f.ty)) {
            Some(a) => Some(a.text@),
            None => None,
        },
        accum: spec_accum(f.attrs@),
    }
}

/// The model a descriptor carries.
pub open spec fn desc_model(d: FieldDescriptor) -> FieldModel {
    FieldModel {
        name: d.name@,
        declared: d.declared_text@,
        optional: d.is_optional,
        eff_text: d.effective_type.text@,
        elem_text: match spec_first_arg(d.effective_type) {
            Some(a) => Some(a.text@),
            None => None,
        },
        accum: accum_model(d.accumulator),
    }
}

/// The models of a descriptor list.
pub open spec fn models_of(ds: Seq<FieldDescriptor>) -> Seq<FieldModel> {
    ds.map_values(|d: FieldDescriptor| desc_model(d))
}

/// The models of a record's field list.
pub open spec fn record_models(fs: Seq<FieldDef>) -> Seq<FieldModel> {
    fs.map_values(|f: FieldDef| field_model(f))
}

/// Builds one descriptor per field, in declaration order. Pure composition of
/// the schema extractor and the annotation parser: no new failure modes.
pub fn get_fields(fields: Vec<FieldDef>) -> (r: Vec<FieldDescriptor>)
    ensures
        models_of(r@) == record_models(fields@),
{
    let mut fields = fields;
    let ghost orig = fields@;
    let mut r: Vec<FieldDescriptor> = Vec::new();
    while fields.len() > 0
        invariant
            r@.len() + fields@.len() == orig.len(),
            fields@ == orig.subrange(r@.len() as int, orig.len() as int),
            forall|k: int| 0 <= k < r@.len() ==> desc_model(r@[k]) == field_model(orig[k]),
        decreases fields@.len(),
    {
        let ghost idx = r@.len() as int;
        let f = fields.remove(0);
        proof {
            assert(f == orig[idx]);
            assert(fields@ =~= orig.subrange(idx + 1, orig.len() as int));
        }
        let FieldDef { name, ty, attrs } = f;
        let accumulator = get_repeated_name(&attrs);
        let optional = is_option(&ty);
        let d = if optional {
            let TypeExpr { text: declared_text, name: _, args: mut targs } = ty;
            let inner = targs.remove(0);
            FieldDescriptor {
                name,
                declared_text,
                is_optional: true,
                effective_type: inner,
                accumulator,
            }
        } else {
            let declared_text = ty.text.clone();
            FieldDescriptor {
                name,
                declared_text,
                is_optional: false,
                effective_type: ty,
                accumulator,
            }
        };
        proof {
            assert(desc_model(d) == field_model(orig[idx]));
        }
        r.push(d);
    }
    proof {
        assert(models_of(r@) =~= record_models(orig));
    }
    r
}

/// The locations of the malformed annotations, one per failing field, in
/// declaration order.
pub open spec fn spec_error_spans(ms: Seq<FieldModel>) -> Seq<usize>
    decreases ms.len(),
{
    if ms.len() == 0 {
        Seq::empty()
    } else {
        spec_error_spans(ms.drop_last()) + (match ms.last().accum {
            AccumModel::Malformed(sp) => seq![sp],
            _ => Seq::empty(),
        })
    }
}

/// Whether the diagnostics report exactly the given locations, in order, each
/// with the malformed-annotation message.
pub open spec fn diags_match(ds: Seq<Diagnostic>, spans: Seq<usize>) -> bool {
    &&& ds.len() == spans.len()
    &&& forall|j: int|
        0 <= j < ds.len() ==> ds[j].span == spans[j] && ds[j].message@ == spec_expected_msg()
}

/// A failure is reported for a field exactly when its annotation was
/// malformed.
pub proof fn lemma_error_spans_iff(ms: Seq<FieldModel>)
    ensures
        spec_error_spans(ms).len() > 0 <==> exists|i: int|
            0 <= i < ms.len() && ms[i].accum is Malformed,
    decreases ms.len(),
{
    if ms.len() > 0 {
        lemma_error_spans_iff(ms.drop_last());
        if spec_error_spans(ms.drop_last()).len() > 0 {
            let i = choose|i: int|
                0 <= i < ms.drop_last().len() && ms.drop_last()[i].accum is Malformed;
            assert(ms[i].accum is Malformed);
        }
        if ms.last().accum is Malformed {
            assert(ms[ms.len() - 1].accum is Malformed);
        }
        if exists|i: int| 0 <= i < ms.len() && ms[i].accum is Malformed {
            let i = choose|i: int| 0 <= i < ms.len() && ms[i].accum is Malformed;
            if i < ms.len() - 1 {
                assert(ms.drop_last()[i].accum is Malformed);
            }
        }
    }
}

/// Every malformed field's location is reported, never just the first
/// encountered.
pub proof fn lemma_error_spans_complete(ms: Seq<FieldModel>, i: int)
    requires
        0 <= i < ms.len(),
        ms[i].accum is Malformed,
    ensures
        spec_error_spans(ms).contains(ms[i].accum->Malformed_0),
    decreases ms.len(),
{
    let spans = spec_error_spans(ms);
    let head = spec_error_spans(ms.drop_last());
    if i == ms.len() - 1 {
        assert(spans[head.len() as int] == ms[i].accum->Malformed_0);
    } else {
        lemma_error_spans_complete(ms.drop_last(), i);
        let j = choose|j: int|
            0 <= j < head.len() && head[j] == ms.drop_last()[i].accum->Malformed_0;
        assert(spans[j] == ms[i].accum->Malformed_0);
    }
}

/// One step of the error scan.
proof fn lemma_error_spans_take_step(ms: Seq<FieldModel>, i: int)
    requires
        0 <= i < ms.len(),
    ensures
        spec_error_spans(ms.take(i + 1)) == spec_error_spans(ms.take(i)) + (match ms[i].accum {
            AccumModel::Malformed(sp) => seq![sp],
            _ => Seq::<usize>::empty(),
        }),
{
    assert(ms.take(i + 1).drop_last() =~= ms.take(i));
    assert(ms.take(i + 1).last() == ms[i]);
}

/// Scans all descriptors for malformed annotations. Hands back `None` when
/// every annotation parsed, else every failure's diagnostic, each anchored at
/// its own location, in declaration order — never just the first.
pub fn check_fields_for_errors(fields: &Vec<FieldDescriptor>) -> (r: Option<Vec<Diagnostic>>)
    ensures
        r is Some <==> spec_error_spans(models_of(fields@)).len() > 0,
        r matches Some(v) ==> diags_match(v@, spec_error_spans(models_of(fields@))),
{
    let ghost ms = models_of(fields@);
    let mut errs: Vec<Diagnostic> = Vec::new();
    let n = fields.len();
    proof {
        assert(ms.take(0) =~= Seq::<FieldModel>::empty());
    }
    for i in 0..n
        invariant
            n == fields@.len(),
            ms == models_of(fields@),
            diags_match(errs@, spec_error_spans(ms.take(i as int))),
    {
        proof {
            lemma_error_spans_take_step(ms, i as int);
        }
        match &fields[i].accumulator {
            AccumState::Malformed(sp) => {
                let d = Diagnostic { span: *sp, message: expected_each_message() };
                errs.push(d);
            },
            _ => {},
        }
    }
    proof {
        assert(ms.take(n as int) =~= ms);
    }
    if errs.len() > 0 {
        Some(errs)
    } else {
        None
    }
}

} // verus!
