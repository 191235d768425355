use crate::object::{loose_object_id, same_id, sink_write, ObjectKind};
use vstd::prelude::*;
use vstd::slice::slice_to_vec;

verus! {

/// How a written object's id compared with the id its pack index records.
#[derive(PartialEq, Eq, Structural, Clone, Copy, Debug)]
pub enum Resolution {
    /// The ids are equal.
    Exact,
    /// A tree whose id changed because legacy file modes were canonicalized.
    ToleratedTree,
}

/// A failure tied to one object of the pack.
#[derive(Debug)]
pub enum ObjectError {
    /// The output writer could not write the object.
    Write { kind: ObjectKind, expected: Vec<u8>, cause: String },
    /// The traversal could not decode the entry.
    Decode { expected: Vec<u8>, cause: String },
    /// A non-tree object did not re-encode to the id its index records.
    EncodeMismatch { kind: ObjectKind, expected: Vec<u8>, actual: Vec<u8> },
}

/// The outcome of comparing the id an object was written under (`actual`) with
/// the id recorded for it (`expected`); `None` is a mismatch that is not tolerated.
pub open spec fn resolution_of(kind: ObjectKind, expected: Seq<u8>, actual: Seq<u8>) -> Option<
    Resolution,
> {
    if expected == actual {
        Some(Resolution::Exact)
    } else if kind is Tree {
        Some(Resolution::ToleratedTree)
    } else {
        None
    }
}

/// Applies the mismatch policy to an object written under `actual`.
pub fn resolve(kind: ObjectKind, expected: &[u8], actual: &[u8]) -> (r: Result<
    Resolution,
    ObjectError,
>)
    ensures
        resolution_of(kind, expected@, actual@) matches Some(res) ==> r == Ok::<
            Resolution,
            ObjectError,
        >(res),
        resolution_of(kind, expected@, actual@) is None ==> (r matches Err(
            ObjectError::EncodeMismatch { kind: k, expected: e, actual: a },
        ) && k == kind && e@ == expected@ && a@ == actual@),
{
    if same_id(expected, actual) {
        Ok(Resolution::Exact)
    } else if kind == ObjectKind::Tree {
        Ok(Resolution::ToleratedTree)
    } else {
        Err(ObjectError::EncodeMismatch { kind, expected: slice_to_vec(expected), actual: slice_to_vec(actual) })
    }
}

/// What the traversal reports for one entry of the pack.
#[derive(Debug)]
pub enum EntryEvent {
    /// The entry decoded and was handed to the output writer, with what it returned.
    Written { kind: ObjectKind, expected: Vec<u8>, written: Result<Vec<u8>, String> },
    /// The entry could not be decoded.
    DecodeFailed { expected: Vec<u8>, cause: String },
}

/// How an entry resolves; `None` is a failure of that entry.
pub open spec fn event_resolution(ev: EntryEvent) -> Option<Resolution> {
    match ev {
        EntryEvent::Written { kind, expected, written } => match written {
            Ok(actual) => resolution_of(kind, expected@, actual@),
            Err(_) => None,
        },
        EntryEvent::DecodeFailed { .. } => None,
    }
}

/// `e` is the error that the failing entry `ev` reports, carrying its kind and ids.
pub open spec fn reports(e: ObjectError, ev: EntryEvent) -> bool {
    match ev {
        EntryEvent::Written { kind, expected, written } => match written {
            Ok(actual) => e matches ObjectError::EncodeMismatch { kind: k, expected: x, actual: a }
                && k == kind && x@ == expected@ && a@ == actual@,
            Err(c) => e matches ObjectError::Write { kind: k, expected: x, cause } && k == kind
                && x@ == expected@ && cause@ == c@,
        },
        EntryEvent::DecodeFailed { expected, cause } => e matches ObjectError::Decode {
            expected: x,
            cause: c,
        } && x@ == expected@ && c@ == cause@,
    }
}

/// Resolves one entry, wrapping any failure with the entry's kind and id.
pub fn classify(ev: &EntryEvent) -> (r: Result<Resolution, ObjectError>)
    ensures
        event_resolution(*ev) matches Some(res) ==> r == Ok::<Resolution, ObjectError>(res),
        event_resolution(*ev) is None ==> (r matches Err(e) && reports(e, *ev)),
{
    match ev {
        EntryEvent::Written { kind, expected, written } => match written {
            Ok(actual) => resolve(*kind, expected.as_slice(), actual.as_slice()),
            Err(cause) => Err(
                ObjectError::Write { kind: *kind, expected: expected.clone(), cause: cause.clone() },
            ),
        },
        EntryEvent::DecodeFailed { expected, cause } => Err(
            ObjectError::Decode { expected: expected.clone(), cause: cause.clone() },
        ),
    }
}

/// Writes one object through a sink that computes its id and keeps no bytes,
/// and reports the entry with what the sink returned.
pub fn discard_entry(kind: ObjectKind, content: &[u8], expected: &[u8]) -> (r: EntryEvent)
    ensures
        r matches EntryEvent::Written { kind: k, expected: e, written: Ok(a) } && k == kind && e@
            == expected@ && a@ == loose_object_id(kind, content@),
{
    EntryEvent::Written { kind, expected: slice_to_vec(expected), written: sink_write(kind, content) }
}

/// Checks one object without storing it: its id is computed by a sink that
/// keeps no bytes, then compared with `expected`.
pub fn verify_object(kind: ObjectKind, content: &[u8], expected: &[u8]) -> (r: Result<
    Resolution,
    ObjectError,
>)
    ensures
        resolution_of(kind, expected@, loose_object_id(kind, content@)) matches Some(res) ==> r
            == Ok::<Resolution, ObjectError>(res),
        resolution_of(kind, expected@, loose_object_id(kind, content@)) is None ==> (r matches Err(
            ObjectError::EncodeMismatch { kind: k, expected: x, actual: a },
        ) && k == kind && x@ == expected@ && a@ == loose_object_id(kind, content@)),
{
    classify(&discard_entry(kind, content, expected))
}

} // verus!
