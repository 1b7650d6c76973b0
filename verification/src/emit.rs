//! Code generation: the text of the builder companion type.
//!
//! Given the record name and a failure-free descriptor list, four artifacts
//! are emitted: the builder type's field layout, the zero-state initializer
//! behind a `builder()` factory on the record type, one chaining setter per
//! field, and the final validating `build` constructor. Every contract pins
//! the emitted text exactly, so the whole generation step is a function of
//! the schema model alone.

use vstd::prelude::*;
use vstd::string::StringExecFns;
use crate::annot::AccumState;
use crate::fields::{desc_model, models_of, FieldDescriptor, FieldModel};
use crate::schema::get_angle_bracket_arg;
use crate::model::TypeExpr;

verus! {

/// Whether the field accumulates elements.
pub open spec fn has_accum(m: FieldModel) -> bool {
    m.accum is Named
}

/// The name of the per-element operation an accumulating field asks for.
pub open spec fn accum_op(m: FieldModel) -> Seq<char>
    recommends
        has_accum(m),
{
    m.accum->Named_0
}

/// Every accumulating field's effective type must carry an element type: the
/// implicit contract that an accumulator is a single-parameter container.
pub open spec fn accum_fields_have_element(ms: Seq<FieldModel>) -> bool {
    forall|i: int| 0 <= i < ms.len() && ms[i].accum is Named ==> ms[i].elem_text is Some
}

/// The message the generated constructor reports for a required field whose
/// setter was never called.
pub open spec fn spec_missing_msg(name: Seq<char>) -> Seq<char> {
    "Field '"@ + name + "' not initialized."@
}

/// Builds the missing-field message for the given field name.
pub fn missing_field_message(name: &str) -> (r: String)
    ensures
        r@ == spec_missing_msg(name@),
{
    let mut s = String::from_str("Field '");
    s.append(name);
    s.append("' not initialized.");
    proof {
        assert(s@ =~= spec_missing_msg(name@));
    }
    s
}

/// One storage slot declaration. An accumulating field keeps its container
/// type as is; every other field is wrapped so that "not yet set" is
/// distinguishable from "set".
pub open spec fn spec_slot_line(m: FieldModel) -> Seq<char> {
    if has_accum(m) {
        "    "@ + m.name + ": "@ + m.eff_text + ",\n"@
    } else {
        "    "@ + m.name + ": std::option::Option<"@ + m.eff_text + ">,\n"@
    }
}

/// The storage slots, one per field, in declaration order.
pub open spec fn spec_slot_lines(ms: Seq<FieldModel>) -> Seq<char>
    decreases ms.len(),
{
    if ms.len() == 0 {
        Seq::empty()
    } else {
        spec_slot_lines(ms.drop_last()) + spec_slot_line(ms.last())
    }
}

/// One zero-state initializer line: an empty container for an accumulating
/// field, absence for every other.
pub open spec fn spec_init_line(m: FieldModel) -> Seq<char> {
    if has_accum(m) {
        "            "@ + m.name + ": std::vec::Vec::new(),\n"@
    } else {
        "            "@ + m.name + ": std::option::Option::None,\n"@
    }
}

/// The initializer lines, one per field, in declaration order.
pub open spec fn spec_init_lines(ms: Seq<FieldModel>) -> Seq<char>
    decreases ms.len(),
{
    if ms.len() == 0 {
        Seq::empty()
    } else {
        spec_init_lines(ms.drop_last()) + spec_init_line(ms.last())
    }
}

/// One chaining setter. An accumulating field gets an operation named after
/// its accumulator name that appends one element; every other field gets an
/// operation named after the field that replaces the slot's value.
pub open spec fn spec_setter(m: FieldModel) -> Seq<char>
    recommends
        has_accum(m) ==> m.elem_text is Some,
{
    if has_accum(m) {
        "    fn "@ + accum_op(m) + "(&mut self, x: "@ + m.elem_text->0
            + ") -> &mut Self {\n        self."@ + m.name + ".push(x);\n        self\n    }\n\n"@
    } else {
        "    fn "@ + m.name + "(&mut self, x: "@ + m.eff_text
            + ") -> &mut Self {\n        self."@ + m.name
            + " = std::option::Option::Some(x);\n        self\n    }\n\n"@
    }
}

/// The setters, one per field, in declaration order.
pub open spec fn spec_setters(ms: Seq<FieldModel>) -> Seq<char>
    decreases ms.len(),
{
    if ms.len() == 0 {
        Seq::empty()
    } else {
        spec_setters(ms.drop_last()) + spec_setter(ms.last())
    }
}

/// One field assignment of the validating constructor. A required field is
/// drained and its absence is the located failure; an accumulating field is
/// copied as is; an optional field's state is passed through.
pub open spec fn spec_build_line(m: FieldModel) -> Seq<char> {
    if has_accum(m) {
        "            "@ + m.name + ": self."@ + m.name + ".clone(),\n"@
    } else if m.optional {
        "            "@ + m.name + ": self."@ + m.name + ".take(),\n"@
    } else {
        "            "@ + m.name + ": self."@ + m.name + ".take().ok_or(\""@ + spec_missing_msg(
            m.name,
        ) + "\")?,\n"@
    }
}

/// The constructor's field assignments, one per field, in declaration order.
pub open spec fn spec_build_lines(ms: Seq<FieldModel>) -> Seq<char>
    decreases ms.len(),
{
    if ms.len() == 0 {
        Seq::empty()
    } else {
        spec_build_lines(ms.drop_last()) + spec_build_line(ms.last())
    }
}

/// The builder type's declaration with its field layout.
pub open spec fn spec_struct_part(n: Seq<char>, ms: Seq<FieldModel>) -> Seq<char> {
    "#[derive(Debug, PartialEq)]\nstruct "@ + n + "Builder {\n"@ + spec_slot_lines(ms) + "}\n\n"@
}

/// The factory operation on the record type, handing back a zero-state
/// builder.
pub open spec fn spec_factory_part(n: Seq<char>, ms: Seq<FieldModel>) -> Seq<char> {
    "impl "@ + n + " {\n    fn builder() -> "@ + n + "Builder {\n        "@ + n + "Builder {\n"@
        + spec_init_lines(ms) + "        }\n    }\n}\n\n"@
}

/// The validating constructor.
pub open spec fn spec_build_fn(n: Seq<char>, ms: Seq<FieldModel>) -> Seq<char> {
    "    fn build(&mut self) -> std::result::Result<"@ + n
        + ", std::boxed::Box<dyn std::error::Error>> {\n        std::result::Result::Ok("@ + n
        + " {\n"@ + spec_build_lines(ms) + "        })\n    }\n"@
}

/// The builder type's impl block: the setters, then the constructor.
pub open spec fn spec_impl_part(n: Seq<char>, ms: Seq<FieldModel>) -> Seq<char> {
    "impl "@ + n + "Builder {\n"@ + spec_setters(ms) + spec_build_fn(n, ms) + "}\n"@
}

/// The whole generated artifact, a function of the schema model alone.
pub open spec fn spec_generated(n: Seq<char>, ms: Seq<FieldModel>) -> Seq<char> {
    spec_struct_part(n, ms) + spec_factory_part(n, ms) + spec_impl_part(n, ms)
}

/// One step of a per-field scan, shared by all four line emitters.
proof fn lemma_take_step(ms: Seq<FieldModel>, i: int)
    requires
        0 <= i < ms.len(),
    ensures
        ms.take(i + 1).drop_last() =~= ms.take(i),
        ms.take(i + 1).last() == ms[i],
{
}

/// Appends one storage slot declaration.
fn push_slot_line(out: &mut String, d: &FieldDescriptor)
    ensures
        final(out)@ == old(out)@ + spec_slot_line(desc_model(*d)),
{
    out.append("    ");
    out.append(d.name.as_str());
    match &d.accumulator {
        AccumState::Named(_) => {
            out.append(": ");
            out.append(d.effective_type.text.as_str());
            out.append(",\n");
        },
        _ => {
            out.append(": std::option::Option<");
            out.append(d.effective_type.text.as_str());
            out.append(">,\n");
        },
    }
    proof {
        assert(out@ =~= old(out)@ + spec_slot_line(desc_model(*d)));
    }
}

/// Appends the storage slots of all fields, in declaration order.
fn push_slot_lines(out: &mut String, ds: &Vec<FieldDescriptor>)
    ensures
        final(out)@ == old(out)@ + spec_slot_lines(models_of(ds@)),
{
    let ghost ms = models_of(ds@);
    let n = ds.len();
    for i in 0..n
        invariant
            n == ds@.len(),
            ms == models_of(ds@),
            out@ == old(out)@ + spec_slot_lines(ms.take(i as int)),
    {
        push_slot_line(out, &ds[i]);
        proof {
            lemma_take_step(ms, i as int);
            assert(out@ =~= old(out)@ + spec_slot_lines(ms.take(i as int + 1)));
        }
    }
    proof {
        assert(ms.take(n as int) =~= ms);
    }
}

/// Appends one zero-state initializer line.
fn push_init_line(out: &mut String, d: &FieldDescriptor)
    ensures
        final(out)@ == old(out)@ + spec_init_line(desc_model(*d)),
{
    out.append("            ");
    out.append(d.name.as_str());
    match &d.accumulator {
        AccumState::Named(_) => {
            out.append(": std::vec::Vec::new(),\n");
        },
        _ => {
            out.append(": std::option::Option::None,\n");
        },
    }
    proof {
        assert(out@ =~= old(out)@ + spec_init_line(desc_model(*d)));
    }
}

/// Appends the initializer lines of all fields, in declaration order.
fn push_init_lines(out: &mut String, ds: &Vec<FieldDescriptor>)
    ensures
        final(out)@ == old(out)@ + spec_init_lines(models_of(ds@)),
{
    let ghost ms = models_of(ds@);
    let n = ds.len();
    for i in 0..n
        invariant
            n == ds@.len(),
            ms == models_of(ds@),
            out@ == old(out)@ + spec_init_lines(ms.take(i as int)),
    {
        push_init_line(out, &ds[i]);
        proof {
            lemma_take_step(ms, i as int);
            assert(out@ =~= old(out)@ + spec_init_lines(ms.take(i as int + 1)));
        }
    }
    proof {
        assert(ms.take(n as int) =~= ms);
    }
}

/// Appends one setter.
fn push_setter(out: &mut String, d: &FieldDescriptor)
    requires
        desc_model(*d).accum is Named ==> desc_model(*d).elem_text is Some,
    ensures
        final(out)@ == old(out)@ + spec_setter(desc_model(*d)),
{
    out.append("    fn ");
    match &d.accumulator {
        AccumState::Named(op) => {
            let elem: &TypeExpr = match get_angle_bracket_arg(&d.effective_type) {
                Some(el) => el,
                None => {
                    proof {
                        assert(false);
                    }
                    &d.effective_type
                },
            };
            out.append(op.as_str());
            out.append("(&mut self, x: ");
            out.append(elem.text.as_str());
            out.append(") -> &mut Self {\n        self.");
            out.append(d.name.as_str());
            out.append(".push(x);\n        self\n    }\n\n");
        },
        _ => {
            out.append(d.name.as_str());
            out.append("(&mut self, x: ");
            out.append(d.effective_type.text.as_str());
            out.append(") -> &mut Self {\n        self.");
            out.append(d.name.as_str());
            out.append(" = std::option::Option::Some(x);\n        self\n    }\n\n");
        },
    }
    proof {
        assert(out@ =~= old(out)@ + spec_setter(desc_model(*d)));
    }
}

/// Emits the setter operations of all fields, in declaration order.
pub fn derive_setter_functions(fields: &Vec<FieldDescriptor>) -> (r: String)
    requires
        accum_fields_have_element(models_of(fields@)),
    ensures
        r@ == spec_setters(models_of(fields@)),
{
    let ghost ms = models_of(fields@);
    let mut out = String::new();
    let n = fields.len();
    for i in 0..n
        invariant
            n == fields@.len(),
            ms == models_of(fields@),
            accum_fields_have_element(ms),
            out@ == spec_setters(ms.take(i as int)),
    {
        proof {
            assert(ms[i as int] == desc_model(fields@[i as int]));
        }
        push_setter(&mut out, &fields[i]);
        proof {
            lemma_take_step(ms, i as int);
            assert(out@ =~= spec_setters(ms.take(i as int + 1)));
        }
    }
    proof {
        assert(ms.take(n as int) =~= ms);
    }
    out
}

/// Appends one field assignment of the validating constructor.
fn push_build_line(out: &mut String, d: &FieldDescriptor)
    ensures
        final(out)@ == old(out)@ + spec_build_line(desc_model(*d)),
{
    out.append("            ");
    out.append(d.name.as_str());
    out.append(": self.");
    out.append(d.name.as_str());
    match &d.accumulator {
        AccumState::Named(_) => {
            out.append(".clone(),\n");
        },
        _ => {
            if d.is_optional {
                out.append(".take(),\n");
            } else {
                out.append(".take().ok_or(\"");
                out.append("Field '");
                out.append(d.name.as_str());
                out.append("' not initialized.");
                out.append("\")?,\n");
            }
        },
    }
    proof {
        assert(out@ =~= old(out)@ + spec_build_line(desc_model(*d)));
    }
}

/// Emits the validating constructor: it drains each required slot or fails
/// with the located message, copies each accumulated container as is, and
/// passes each optional slot through.
pub fn derive_build_function(name: &str, fields: &Vec<FieldDescriptor>) -> (r: String)
    ensures
        r@ == spec_build_fn(name@, models_of(fields@)),
{
    let ghost ms = models_of(fields@);
    let mut out = String::from_str("    fn build(&mut self) -> std::result::Result<");
    out.append(name);
    out.append(", std::boxed::Box<dyn std::error::Error>> {\n        std::result::Result::Ok(");
    out.append(name);
    out.append(" {\n");
    let ghost head = out@;
    let n = fields.len();
    for i in 0..n
        invariant
            n == fields@.len(),
            ms == models_of(fields@),
            out@ == head + spec_build_lines(ms.take(i as int)),
    {
        push_build_line(&mut out, &fields[i]);
        proof {
            lemma_take_step(ms, i as int);
            assert(out@ =~= head + spec_build_lines(ms.take(i as int + 1)));
        }
    }
    out.append("        })\n    }\n");
    proof {
        assert(ms.take(n as int) =~= ms);
        assert(out@ =~= spec_build_fn(name@, ms));
    }
    out
}

/// Emits the whole companion artifact: the builder type, the factory, the
/// setters and the validating constructor.
pub fn generate(name: &str, fields: &Vec<FieldDescriptor>) -> (r: String)
    requires
        accum_fields_have_element(models_of(fields@)),
    ensures
        r@ == spec_generated(name@, models_of(fields@)),
{
    let ghost ms = models_of(fields@);
    let mut out = String::from_str("#[derive(Debug, PartialEq)]\nstruct ");
    out.append(name);
    out.append("Builder {\n");
    push_slot_lines(&mut out, fields);
    out.append("}\n\n");
    proof {
        assert(out@ =~= spec_struct_part(name@, ms));
    }
    out.append("impl ");
    out.append(name);
    out.append(" {\n    fn builder() -> ");
    out.append(name);
    out.append("Builder {\n        ");
    out.append(name);
    out.append("Builder {\n");
    push_init_lines(&mut out, fields);
    out.append("        }\n    }\n}\n\n");
    proof {
        assert(out@ =~= spec_struct_part(name@, ms) + spec_factory_part(name@, ms));
    }
    out.append("impl ");
    out.append(name);
    out.append("Builder {\n");
    let setters = derive_setter_functions(fields);
    out.append(setters.as_str());
    let build_fn = derive_build_function(name, fields);
    out.append(build_fn.as_str());
    out.append("}\n");
    proof {
        assert(out@ =~= spec_generated(name@, ms));
    }
    out
}

} // verus!
