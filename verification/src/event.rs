//! Lifecycle events of the watch stream, the transform that trims
//! high-volume bookkeeping metadata from them, and the observability
//! record emitted for each one.

use vstd::prelude::*;
use crate::object::Object;

verus! {

/// One transition observed on the stream. `Restarted` signals that the
/// server could not resume incrementally; the carried list is the new
/// ground truth.
#[derive(Debug, PartialEq, Eq)]
pub enum Event {
    Applied(Object),
    Deleted(Object),
    Restarted(Vec<Object>),
}

/// The observability record emitted for one event: its kind, and for a
/// restart the count of carried objects.
#[derive(Debug, Clone, Copy, PartialEq, Eq)]
pub enum EventRecord {
    Applied,
    Deleted,
    Restarted(usize),
}

/// The record that belongs to an event.
pub open spec fn record_of(e: Event) -> EventRecord {
    match e {
        Event::Applied(_) => EventRecord::Applied,
        Event::Deleted(_) => EventRecord::Deleted,
        Event::Restarted(l) => EventRecord::Restarted(l@.len() as usize),
    }
}

/// Emits the observability record of one event: the event kind, and
/// for a restart the number of objects it carries.
pub fn observe(e: &Event) -> (r: EventRecord)
    ensures
        r == record_of(*e),
{
    match e {
        Event::Applied(_) => EventRecord::Applied,
        Event::Deleted(_) => EventRecord::Deleted,
        Event::Restarted(l) => EventRecord::Restarted(l.len()),
    }
}

/// The object with its field-ownership bookkeeping removed; identity
/// and content are untouched.
pub open spec fn stripped_object(o: Object) -> Object {
    Object { managed_fields: None, ..o }
}

/// Every object of a sequence stripped.
pub open spec fn stripped_seq(s: Seq<Object>) -> Seq<Object> {
    s.map_values(|o: Object| stripped_object(o))
}

/// Removes the field-ownership bookkeeping of one object, leaving its
/// identity and its content exactly as they were.
pub fn strip_object(o: &mut Object)
    ensures
        *final(o) == stripped_object(*old(o)),
        final(o).identity == old(o).identity,
        final(o).content == old(o).content,
        final(o).managed_fields is None,
{
    o.managed_fields = None;
}

/// Trims the high-volume, non-semantic bookkeeping metadata from an
/// event before it reaches storage: every object carried by an
/// `Applied` or `Restarted` event is stripped, a `Deleted` event passes
/// through unchanged, and no identity or content is altered.
pub fn strip_event(e: Event) -> (r: Event)
    ensures
        match (e, r) {
            (Event::Applied(a), Event::Applied(b)) => b == stripped_object(a),
            (Event::Deleted(a), Event::Deleted(b)) => b == a,
            (Event::Restarted(la), Event::Restarted(lb)) => lb@ == stripped_seq(la@),
            _ => false,
        },
        record_of(r) == record_of(e),
{
    match e {
        Event::Applied(mut o) => {
            strip_object(&mut o);
            Event::Applied(o)
        },
        Event::Deleted(o) => Event::Deleted(o),
        Event::Restarted(mut l) => {
            let ghost l0 = l@;
            let mut rev: Vec<Object> = Vec::new();
            while l.len() > 0
                invariant
                    l@ == l0.take(l0.len() - rev@.len()),
                    rev@.len() <= l0.len(),
                    forall|j: int|
                        0 <= j < rev@.len() ==> rev@[j] == stripped_object(
                            l0[l0.len() - 1 - j],
                        ),
                decreases l@.len(),
            {
                let mut o = l.pop().unwrap();
                strip_object(&mut o);
                rev.push(o);
                proof {
                    assert(l@ =~= l0.take(l0.len() - rev@.len()));
                }
            }
            let ghost r0 = rev@;
            let mut out: Vec<Object> = Vec::new();
            while rev.len() > 0
                invariant
                    r0.len() == l0.len(),
                    forall|j: int|
                        0 <= j < r0.len() ==> r0[j] == stripped_object(l0[l0.len() - 1 - j]),
                    rev@ == r0.take(r0.len() - out@.len()),
                    out@.len() <= r0.len(),
                    forall|j: int|
                        0 <= j < out@.len() ==> out@[j] == r0[r0.len() - 1 - j],
                decreases rev@.len(),
            {
                let o = rev.pop().unwrap();
                out.push(o);
                proof {
                    assert(rev@ =~= r0.take(r0.len() - out@.len()));
                }
            }
            proof {
                assert(out@ =~= stripped_seq(l0));
            }
            Event::Restarted(out)
        },
    }
}

} // verus!
