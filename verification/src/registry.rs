//! Handle allocation and the two handle registries.
//!
//! A [`NominalService`] owns everything the boundary shares between
//! calls: the stream registry, the writer registry, and the two handle
//! counters. Handles are process-unique and strictly increasing within
//! their class; a removed handle is never issued again, so a stale handle
//! deterministically fails as "not found".

use vstd::prelude::*;
use vstd::hash_map::HashMapWithView;

verus! {

broadcast use vstd::std_specs::hash::group_hash_axioms;

/// What a stream construction decided: the destination recipe the engine
/// realises.
pub struct StreamState {
    /// Whether the stream sends to the remote ingestion backend (a
    /// credential was available, explicitly or from the environment).
    pub uses_core: bool,
    /// The destination dataset identifier.
    pub dataset_rid: String,
    /// The local fallback path, if any.
    pub fallback_path: Option<String>,
}

/// The recipe for a channel writer: the stream it was created on and the
/// immutable channel descriptor (name plus accepted tag pairs). A writer
/// keeps its recipe even after its stream handle is shut down.
pub struct WriterState {
    /// The handle of the stream the writer was created on.
    pub stream_handle: u64,
    /// The channel name.
    pub name: String,
    /// The accepted `(key, value)` tag pairs, in input order.
    pub tags: Vec<(String, String)>,
}

impl WriterState {
    /// The tag pairs as character sequences.
    pub open spec fn tags_view(&self) -> Seq<(Seq<char>, Seq<char>)> {
        self.tags@.map_values(|p: (String, String)| (p.0@, p.1@))
    }
}

/// Whether `s` is strictly increasing.
pub open spec fn strictly_increasing(s: Seq<u64>) -> bool {
    forall|i: int, j: int| 0 <= i < j < s.len() ==> s[i] < s[j]
}

/// The boundary's shared state: two registries and two handle counters.
pub struct NominalService {
    /// Live streams by handle.
    pub streams: HashMapWithView<u64, StreamState>,
    /// Live writers by handle.
    pub writers: HashMapWithView<u64, WriterState>,
    /// The next stream handle to issue.
    pub next_stream_handle: u64,
    /// The next writer handle to issue.
    pub next_writer_handle: u64,
    /// Every stream handle ever issued, in issue order.
    pub issued_stream_handles: Ghost<Seq<u64>>,
    /// Every writer handle ever issued, in issue order.
    pub issued_writer_handles: Ghost<Seq<u64>>,
}

impl NominalService {
    /// The service invariant: counters start at one, every registered or
    /// issued handle lies below its counter, and issue order is strictly
    /// increasing.
    pub open spec fn wf(&self) -> bool {
        &&& 1 <= self.next_stream_handle
        &&& 1 <= self.next_writer_handle
        &&& forall|h: u64| #[trigger]
            self.streams@.contains_key(h) ==> 1 <= h < self.next_stream_handle
        &&& forall|h: u64| #[trigger]
            self.writers@.contains_key(h) ==> 1 <= h < self.next_writer_handle
        &&& strictly_increasing(self.issued_stream_handles@)
        &&& strictly_increasing(self.issued_writer_handles@)
        &&& forall|i: int|
            0 <= i < self.issued_stream_handles@.len() ==> #[trigger]
                self.issued_stream_handles@[i] < self.next_stream_handle
        &&& forall|i: int|
            0 <= i < self.issued_writer_handles@.len() ==> #[trigger]
                self.issued_writer_handles@[i] < self.next_writer_handle
    }

    /// A fresh service: empty registries, counters at one.
    pub fn new() -> (service: NominalService)
        ensures
            service.wf(),
            service.streams@ == Map::<u64, StreamState>::empty(),
            service.writers@ == Map::<u64, WriterState>::empty(),
            service.next_stream_handle == 1,
            service.next_writer_handle == 1,
            service.issued_stream_handles@ == Seq::<u64>::empty(),
            service.issued_writer_handles@ == Seq::<u64>::empty(),
    {
        NominalService {
            streams: HashMapWithView::new(),
            writers: HashMapWithView::new(),
            next_stream_handle: 1,
            next_writer_handle: 1,
            issued_stream_handles: Ghost(Seq::empty()),
            issued_writer_handles: Ghost(Seq::empty()),
        }
    }

    /// Issues a stream handle strictly greater than every one before it.
    pub fn allocate_stream_handle(&mut self) -> (h: u64)
        requires
            old(self).wf(),
            old(self).next_stream_handle < u64::MAX,
        ensures
            final(self).wf(),
            h == old(self).next_stream_handle,
            1 <= h,
            final(self).next_stream_handle == h + 1,
            final(self).streams@ == old(self).streams@,
            final(self).writers@ == old(self).writers@,
            final(self).next_writer_handle == old(self).next_writer_handle,
            final(self).issued_writer_handles@ == old(self).issued_writer_handles@,
            final(self).issued_stream_handles@ == old(self).issued_stream_handles@.push(h),
            !old(self).streams@.contains_key(h),
            !old(self).issued_stream_handles@.contains(h),
    {
        let h = self.next_stream_handle;
        self.next_stream_handle = self.next_stream_handle + 1;
        self.issued_stream_handles = Ghost(self.issued_stream_handles@.push(h));
        proof {
            let s = self.issued_stream_handles@;
            assert forall|i: int, j: int| 0 <= i < j < s.len() implies s[i] < s[j] by {
                if j < s.len() - 1 {
                } else {
                    assert(s[i] < h);
                }
            }
            if old(self).issued_stream_handles@.contains(h) {
                let i = choose|i: int|
                    0 <= i < old(self).issued_stream_handles@.len()
                        && old(self).issued_stream_handles@[i] == h;
                assert(old(self).issued_stream_handles@[i] < h);
            }
        }
        h
    }

    /// Issues a writer handle strictly greater than every one before it.
    pub fn allocate_writer_handle(&mut self) -> (h: u64)
        requires
            old(self).wf(),
            old(self).next_writer_handle < u64::MAX,
        ensures
            final(self).wf(),
            h == old(self).next_writer_handle,
            1 <= h,
            final(self).next_writer_handle == h + 1,
            final(self).streams@ == old(self).streams@,
            final(self).writers@ == old(self).writers@,
            final(self).next_stream_handle == old(self).next_stream_handle,
            final(self).issued_stream_handles@ == old(self).issued_stream_handles@,
            final(self).issued_writer_handles@ == old(self).issued_writer_handles@.push(h),
            !old(self).writers@.contains_key(h),
            !old(self).issued_writer_handles@.contains(h),
    {
        let h = self.next_writer_handle;
        self.next_writer_handle = self.next_writer_handle + 1;
        self.issued_writer_handles = Ghost(self.issued_writer_handles@.push(h));
        proof {
            let s = self.issued_writer_handles@;
            assert forall|i: int, j: int| 0 <= i < j < s.len() implies s[i] < s[j] by {
                if j < s.len() - 1 {
                } else {
                    assert(s[i] < h);
                }
            }
            if old(self).issued_writer_handles@.contains(h) {
                let i = choose|i: int|
                    0 <= i < old(self).issued_writer_handles@.len()
                        && old(self).issued_writer_handles@[i] == h;
                assert(old(self).issued_writer_handles@[i] < h);
            }
        }
        h
    }
}

} // verus!
