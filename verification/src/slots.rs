//! The construction protocol of the emitted builder, verified once for every
//! field name and every value.
//!
//! Each generated slot has exactly two states, absent or present (an
//! accumulating slot instead tracks a container with any number of
//! elements). A setter is the only transition; the validating constructor is
//! the terminal read. These operations are the slot semantics the generated
//! text implements, with the laws as their contracts: a required slot never
//! filled fails with the exact located message; an optional slot passes its
//! state through, never failing; an accumulating slot yields exactly the
//! appended elements in call order, an empty container being valid.

use vstd::prelude::*;
use crate::emit::{missing_field_message, spec_missing_msg};

verus! {

/// A setter call on a non-accumulating slot: replaces the slot's value.
pub fn set_value<V>(slot: &mut Option<V>, x: V)
    ensures
        *final(slot) == Some(x),
{
    *slot = Some(x);
}

/// A per-element setter call on an accumulating slot: appends one element,
/// keeping everything already accumulated, in order.
pub fn push_value<V>(slot: &mut Vec<V>, x: V)
    ensures
        final(slot)@ == old(slot)@.push(x),
{
    slot.push(x);
}

/// Per-element setter calls for a whole sequence of values: after appending
/// each in turn, the slot holds exactly the supplied values in call order
/// after whatever it already held — from a zero state, exactly the supplied
/// values; zero calls leave it empty, which is valid.
pub fn accumulate_all<V>(slot: &mut Vec<V>, xs: Vec<V>)
    ensures
        final(slot)@ == old(slot)@ + xs@,
{
    let mut xs = xs;
    let ghost supplied = xs@;
    while xs.len() > 0
        invariant
            xs@.len() <= supplied.len(),
            slot@ == old(slot)@ + supplied.take(supplied.len() - xs@.len()),
            xs@ == supplied.subrange(supplied.len() - xs@.len(), supplied.len() as int),
        decreases xs@.len(),
    {
        let ghost done = supplied.len() - xs@.len();
        let x = xs.remove(0);
        proof {
            assert(x == supplied[done]);
            assert(xs@ =~= supplied.subrange(done + 1, supplied.len() as int));
        }
        push_value(slot, x);
        proof {
            assert(supplied.take(done + 1) =~= supplied.take(done).push(supplied[done]));
            assert(slot@ =~= old(slot)@ + supplied.take(done + 1));
        }
    }
    proof {
        assert(supplied.take(supplied.len() as int) =~= supplied);
        assert(final(slot)@ =~= old(slot)@ + supplied);
    }
}

/// The constructor's read of a required slot: drains a present value; an
/// absent one is the failure `Field '<name>' not initialized.`, for every
/// possible field name, and leaves the slot as it was (still absent), so the
/// builder can be filled and the constructor called again.
pub fn take_required<V>(slot: &mut Option<V>, field_name: &str) -> (r: Result<V, String>)
    ensures
        *old(slot) matches Some(v) ==> (r matches Ok(taken) && taken == v),
        *old(slot) is None ==> (r matches Err(m) && m@ == spec_missing_msg(field_name@)),
        *final(slot) is None,
{
    match slot.take() {
        Some(v) => Ok(v),
        None => Err(missing_field_message(field_name)),
    }
}

/// The constructor's read of an optional slot: always succeeds, passing the
/// slot's state through — omitting the setter yields absence in the final
/// record, never a failure.
pub fn take_optional<V>(slot: &mut Option<V>) -> (r: Option<V>)
    ensures
        r == *old(slot),
        *final(slot) is None,
{
    slot.take()
}

/// The constructor's read of an accumulating slot of strings: always
/// succeeds, yielding a copy of the accumulated elements as they are — even
/// zero of them.
pub fn read_accumulated(slot: &Vec<String>) -> (r: Vec<String>)
    ensures
        r@ == slot@,
{
    let mut r: Vec<String> = Vec::new();
    let n = slot.len();
    for i in 0..n
        invariant
            n == slot@.len(),
            r@.len() == i,
            forall|k: int| 0 <= k < i ==> r@[k] == slot@[k],
    {
        r.push(slot[i].clone());
    }
    proof {
        assert(r@ =~= slot@);
    }
    r
}

} // verus!
