//! Annotation parsing: extracting an optional accumulator operation name from
//! a field's attached annotations.
//!
//! The parser consults the first parenthesized group of the first
//! builder-marked annotation. Its content must be exactly
//! `each = "<string>"` — the identifier `each`, a `=`, and a string literal,
//! nothing more; the operation name is the string literal's content. Any
//! other content is a malformed annotation, reported as a diagnostic anchored
//! at the group's location. Finding no builder group at all is not a failure:
//! it simply means the field accumulates nothing.

use vstd::prelude::*;
use crate::model::{Annotation, AnnotationToken};
use crate::schema::str_content_eq;

verus! {

/// The parse outcome for one field's annotations. Exactly one of the three
/// holds: no accumulator requested, an accumulator with the name of the
/// per-element operation to generate, or a malformed annotation anchored at
/// its group's location.
pub enum AccumState {
    Missing,
    Named(String),
    Malformed(usize),
}

/// The ghost mirror of `AccumState`, carrying the name as a character
/// sequence.
pub enum AccumModel {
    Missing,
    Named(Seq<char>),
    Malformed(usize),
}

/// The model an `AccumState` stands for.
pub open spec fn accum_model(a: AccumState) -> AccumModel {
    match a {
        AccumState::Missing => AccumModel::Missing,
        AccumState::Named(s) => AccumModel::Named(s@),
        AccumState::Malformed(sp) => AccumModel::Malformed(sp),
    }
}

/// The diagnostic message reported for a malformed builder annotation.
pub open spec fn spec_expected_msg() -> Seq<char> {
    "expected `each = '...'`"@
}

/// Builds the malformed-annotation message.
pub fn expected_each_message() -> (r: String)
    ensures
        r@ == spec_expected_msg(),
{
    String::from_str("expected `each = '...'`")
}

/// Whether the annotation carries the recognized builder marker in its path.
pub open spec fn spec_is_builder_marked(a: Annotation) -> bool {
    exists|i: int| 0 <= i < a.path@.len() && a.path@[i]@ == "builder"@
}

/// Whether the token is a parenthesized group.
pub open spec fn spec_is_paren_group(t: AnnotationToken) -> bool {
    t matches AnnotationToken::Group { parenthesized, .. } && parenthesized
}

/// The first parenthesized group among the tokens, if any.
pub open spec fn spec_first_group_in(tokens: Seq<AnnotationToken>) -> Option<AnnotationToken>
    decreases tokens.len(),
{
    if tokens.len() == 0 {
        None
    } else if spec_is_paren_group(tokens[0]) {
        Some(tokens[0])
    } else {
        spec_first_group_in(tokens.drop_first())
    }
}

/// The single group the parser consults: the first parenthesized group of the
/// first builder-marked annotation that has one. Later groups and annotations
/// are never merged in.
pub open spec fn spec_consulted_group(attrs: Seq<Annotation>) -> Option<AnnotationToken>
    decreases attrs.len(),
{
    if attrs.len() == 0 {
        None
    } else if spec_is_builder_marked(attrs[0]) && spec_first_group_in(attrs[0].tokens@) is Some {
        spec_first_group_in(attrs[0].tokens@)
    } else {
        spec_consulted_group(attrs.drop_first())
    }
}

/// Whether the group content is exactly the accepted grammar
/// `each = "<string>"`: three tokens, no more.
pub open spec fn spec_exact_shape(ts: Seq<AnnotationToken>) -> bool {
    &&& ts.len() == 3
    &&& ts[0] matches AnnotationToken::Ident { name } && name@ == "each"@
    &&& ts[1] matches AnnotationToken::Punct { ch } && ch == '='
    &&& ts[2] matches AnnotationToken::Literal { str_value } && str_value is Some
}

/// The accumulator name carried by a well-shaped group content: the string
/// literal's content.
pub open spec fn spec_shape_name(ts: Seq<AnnotationToken>) -> Seq<char>
    recommends
        spec_exact_shape(ts),
{
    ts[2]->str_value->0@
}

/// What consulting a group with the given content and location yields.
pub open spec fn spec_content_accum(ts: Seq<AnnotationToken>, span: usize) -> AccumModel {
    if spec_exact_shape(ts) {
        AccumModel::Named(spec_shape_name(ts))
    } else {
        AccumModel::Malformed(span)
    }
}

/// The full parse outcome for a field's annotations.
pub open spec fn spec_accum(attrs: Seq<Annotation>) -> AccumModel {
    match spec_consulted_group(attrs) {
        None => AccumModel::Missing,
        Some(g) => spec_content_accum(g->tokens@, g->span),
    }
}

/// Whether the annotation's path holds the builder marker.
fn is_builder_marked(a: &Annotation) -> (r: bool)
    ensures
        r == spec_is_builder_marked(*a),
{
    let n = a.path.len();
    for i in 0..n
        invariant
            n == a.path@.len(),
            forall|k: int| 0 <= k < i ==> a.path@[k]@ != "builder"@,
    {
        if str_content_eq(a.path[i].as_str(), "builder") {
            proof {
                assert(a.path@[i as int]@ == "builder"@);
            }
            return true;
        }
    }
    false
}

/// Finds the first parenthesized group among the tokens, handing back its
/// content and its location.
fn first_group_in(tokens: &Vec<AnnotationToken>) -> (r: Option<(&Vec<AnnotationToken>, usize)>)
    ensures
        match r {
            Some(p) => {
                &&& spec_first_group_in(tokens@) matches Some(g)
                &&& spec_first_group_in(tokens@)->0->tokens == *p.0
                &&& spec_first_group_in(tokens@)->0->span == p.1
            },
            None => spec_first_group_in(tokens@) is None,
        },
{
    let n = tokens.len();
    proof {
        assert(tokens@.subrange(0, n as int) =~= tokens@);
    }
    for j in 0..n
        invariant
            n == tokens@.len(),
            spec_first_group_in(tokens@) == spec_first_group_in(
                tokens@.subrange(j as int, n as int),
            ),
    {
        match &tokens[j] {
            AnnotationToken::Group { parenthesized, tokens: inner, span } => {
                if *parenthesized {
                    proof {
                        assert(tokens@.subrange(j as int, n as int)[0] == tokens@[j as int]);
                    }
                    return Some((inner, *span));
                }
            },
            _ => {},
        }
        proof {
            assert(tokens@.subrange(j as int, n as int).drop_first() =~= tokens@.subrange(
                j as int + 1,
                n as int,
            ));
        }
    }
    proof {
        assert(tokens@.subrange(n as int, n as int).len() == 0);
    }
    None
}

/// Parses the consulted group's content against the accepted grammar.
fn parse_group_content(tokens: &Vec<AnnotationToken>, span: usize) -> (r: AccumState)
    ensures
        accum_model(r) == spec_content_accum(tokens@, span),
{
    if tokens.len() == 3 {
        let ok_ident = match &tokens[0] {
            AnnotationToken::Ident { name } => str_content_eq(name.as_str(), "each"),
            _ => false,
        };
        let ok_punct = match &tokens[1] {
            AnnotationToken::Punct { ch } => *ch == '=',
            _ => false,
        };
        if ok_ident && ok_punct {
            match &tokens[2] {
                AnnotationToken::Literal { str_value: Some(s) } => {
                    proof {
                        assert(spec_exact_shape(tokens@));
                    }
                    return AccumState::Named(s.clone());
                },
                _ => {},
            }
        }
    }
    proof {
        assert(!spec_exact_shape(tokens@));
    }
    AccumState::Malformed(span)
}

/// Searches the field's annotations for an accumulator request, validating
/// the annotation syntax of the first builder group found.
pub fn get_repeated_name(attrs: &Vec<Annotation>) -> (r: AccumState)
    ensures
        accum_model(r) == spec_accum(attrs@),
{
    let n = attrs.len();
    proof {
        assert(attrs@.subrange(0, n as int) =~= attrs@);
    }
    for i in 0..n
        invariant
            n == attrs@.len(),
            spec_consulted_group(attrs@) == spec_consulted_group(
                attrs@.subrange(i as int, n as int),
            ),
    {
        proof {
            assert(attrs@.subrange(i as int, n as int)[0] == attrs@[i as int]);
        }
        if is_builder_marked(&attrs[i]) {
            match first_group_in(&attrs[i].tokens) {
                Some((inner, span)) => {
                    return parse_group_content(inner, span);
                },
                None => {},
            }
        }
        proof {
            assert(attrs@.subrange(i as int, n as int).drop_first() =~= attrs@.subrange(
                i as int + 1,
                n as int,
            ));
        }
    }
    proof {
        assert(attrs@.subrange(n as int, n as int).len() == 0);
    }
    AccumState::Missing
}

} // verus!
