//! Cross-cutting guarantees of the boundary, stated and proved.

use vstd::prelude::*;
use crate::codes::{SUCCESS, ERROR_GENERIC};
use crate::errslot::{ErrorSlot, last_error_code};
use crate::registry::{NominalService, strictly_increasing};

verus! {

/// Handle uniqueness: the handles issued for one class are strictly
/// increasing in issue order, so the handles of any two distinct create
/// calls differ.
pub proof fn lemma_issued_handles_distinct(handles: Seq<u64>)
    requires
        strictly_increasing(handles),
    ensures
        forall|i: int, j: int|
            0 <= i < handles.len() && 0 <= j < handles.len() && i != j ==> handles[i]
                != handles[j],
{
    assert forall|i: int, j: int|
        0 <= i < handles.len() && 0 <= j < handles.len() && i != j implies handles[i]
        != handles[j] by {
        if i < j {
            assert(handles[i] < handles[j]);
        } else {
            assert(handles[j] < handles[i]);
        }
    }
}

/// Stale-handle rejection, the registry side: a stream handle at or
/// beyond the next counter was never issued and is not registered. Since
/// every operation rejects an unregistered handle as invalid, and removal
/// only shrinks the registry while creation registers a strictly larger
/// fresh handle, a removed handle can never look valid again.
pub proof fn lemma_fresh_stream_handle_unknown(service: NominalService, h: u64)
    requires
        service.wf(),
        h >= service.next_stream_handle,
    ensures
        !service.streams@.contains_key(h),
        !service.issued_stream_handles@.contains(h),
{
    if service.issued_stream_handles@.contains(h) {
        let i = choose|i: int|
            0 <= i < service.issued_stream_handles@.len() && service.issued_stream_handles@[i]
                == h;
        assert(service.issued_stream_handles@[i] < service.next_stream_handle);
    }
}

/// Stale-handle rejection for writer handles, as for stream handles.
pub proof fn lemma_fresh_writer_handle_unknown(service: NominalService, h: u64)
    requires
        service.wf(),
        h >= service.next_writer_handle,
    ensures
        !service.writers@.contains_key(h),
        !service.issued_writer_handles@.contains(h),
{
    if service.issued_writer_handles@.contains(h) {
        let i = choose|i: int|
            0 <= i < service.issued_writer_handles@.len() && service.issued_writer_handles@[i]
                == h;
        assert(service.issued_writer_handles@[i] < service.next_writer_handle);
    }
}

/// Error-slot isolation: reading a diagnostic depends on nothing but the
/// slot being read, so a failure recorded in one caller's slot is
/// invisible to a read of another caller's slot, which still reports
/// that nothing is pending.
pub proof fn lemma_error_slot_isolation(failed: ErrorSlot, other: ErrorSlot)
    requires
        failed.pending() is Some,
        other.pending() is None,
    ensures
        last_error_code(other) == ERROR_GENERIC,
        last_error_code(failed) == SUCCESS,
{
}

} // verus!
